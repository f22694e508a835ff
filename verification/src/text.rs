//! Small verified helpers on text.

use vstd::prelude::*;

verus! {

/// Whether two texts hold the same characters.
pub fn text_eq(a: &str, b: &str) -> (same: bool)
    ensures
        same == (a@ == b@),
{
    let x = a.to_owned();
    let y = b.to_owned();
    x == y
}

/// Owned copy of a text.
pub fn owned(a: &str) -> (s: String)
    ensures
        s@ == a@,
{
    a.to_owned()
}

} // verus!

verus! {

/// The characters of a text.
pub fn chars_of(s: &str) -> (chars: Vec<char>)
    ensures
        chars@ == s@,
{
    let n = s.unicode_len();
    let mut chars: Vec<char> = Vec::new();
    let mut i: usize = 0;
    while i < n
        invariant
            n == s@.len(),
            i <= n,
            chars@ == s@.subrange(0, i as int),
        decreases n - i,
    {
        chars.push(s.get_char(i));
        i = i + 1;
    }
    assert(s@.subrange(0, n as int) =~= s@);
    chars
}

/// Whether some characters spell a text.
pub fn chars_match(chars: &Vec<char>, text: &str) -> (same: bool)
    ensures
        same == (chars@ == text@),
{
    let other = chars_of(text);
    if chars.len() != other.len() {
        return false;
    }
    let mut i: usize = 0;
    while i < chars.len()
        invariant
            chars@.len() == other@.len(),
            other@ == text@,
            i <= chars@.len(),
            forall|j: int| 0 <= j < i ==> chars@[j] == other@[j],
        decreases chars@.len() - i,
    {
        if chars[i] != other[i] {
            return false;
        }
        i = i + 1;
    }
    assert(chars@ =~= other@);
    true
}

/// Whether a text holds no slash.
pub open spec fn slash_free(s: Seq<char>) -> bool {
    forall|i: int| 0 <= i < s.len() ==> s[i] != '/'
}

/// The parts of a text between slashes, as `str::split('/')` gives them.
pub open spec fn split_slash(s: Seq<char>) -> Seq<Seq<char>>
    decreases s.len(),
{
    if s.len() == 0 {
        seq![Seq::empty()]
    } else {
        let prev = split_slash(s.drop_last());
        if s.last() == '/' {
            prev.push(Seq::empty())
        } else {
            prev.update(prev.len() - 1, prev.last().push(s.last()))
        }
    }
}

/// Splitting always gives at least one part.
pub proof fn lemma_split_nonempty(s: Seq<char>)
    ensures
        split_slash(s).len() >= 1,
    decreases s.len(),
{
    if s.len() > 0 {
        lemma_split_nonempty(s.drop_last());
    }
}

/// Appending slash-free characters extends the last part.
pub proof fn lemma_split_extend(z: Seq<char>, y: Seq<char>)
    requires
        slash_free(y),
    ensures
        split_slash(z + y).len() == split_slash(z).len(),
        split_slash(z + y) == split_slash(z).update(
            split_slash(z).len() - 1,
            split_slash(z).last() + y,
        ),
    decreases y.len(),
{
    lemma_split_nonempty(z);
    if y.len() == 0 {
        assert(z + y =~= z);
        assert(split_slash(z).last() + y =~= split_slash(z).last());
        assert(split_slash(z).update(split_slash(z).len() - 1, split_slash(z).last())
            =~= split_slash(z));
    } else {
        let y0 = y.drop_last();
        assert(slash_free(y0));
        lemma_split_extend(z, y0);
        assert((z + y).drop_last() =~= z + y0);
        assert((z + y).last() == y.last());
        let prev = split_slash(z + y0);
        assert(split_slash(z).last() + y0 + seq![y.last()] =~= split_slash(z).last() + y);
        assert(prev.last() == split_slash(z).last() + y0);
        assert(prev.last().push(y.last()) =~= split_slash(z).last() + y);
        assert(split_slash(z + y) =~= split_slash(z).update(
            split_slash(z).len() - 1,
            split_slash(z).last() + y,
        ));
    }
}

/// A slash-free text is a single part.
pub proof fn lemma_split_single(a: Seq<char>)
    requires
        slash_free(a),
    ensures
        split_slash(a) == seq![a],
{
    lemma_split_extend(Seq::empty(), a);
    assert(Seq::<char>::empty() + a =~= a);
    assert(Seq::<char>::empty() + a =~= a);
    assert(split_slash(Seq::empty()) == seq![Seq::<char>::empty()]);
    assert(split_slash(a) =~= seq![a]);
}

/// A slash followed by a slash-free text starts a new part.
pub proof fn lemma_split_join(x: Seq<char>, y: Seq<char>)
    requires
        slash_free(y),
    ensures
        split_slash(x + seq!['/'] + y) == split_slash(x).push(y),
{
    let xs = x + seq!['/'];
    assert(xs.drop_last() =~= x);
    assert(split_slash(xs) == split_slash(x).push(Seq::empty()));
    lemma_split_extend(xs, y);
    assert(Seq::<char>::empty() + y =~= y);
    assert(split_slash(xs + y) =~= split_slash(x).push(y));
}

/// Split some characters at slashes.
pub fn split_chars(chars: &Vec<char>) -> (parts: Vec<Vec<char>>)
    ensures
        parts@.len() == split_slash(chars@).len(),
        forall|i: int| 0 <= i < parts@.len() ==> #[trigger] parts@[i]@ == split_slash(chars@)[i],
{
    let mut done: Vec<Vec<char>> = Vec::new();
    let mut current: Vec<char> = Vec::new();
    let mut i: usize = 0;
    while i < chars.len()
        invariant
            i <= chars@.len(),
            done@.len() + 1 == split_slash(chars@.subrange(0, i as int)).len(),
            forall|j: int|
                0 <= j < done@.len() ==> #[trigger] done@[j]@ == split_slash(
                    chars@.subrange(0, i as int),
                )[j],
            current@ == split_slash(chars@.subrange(0, i as int)).last(),
        decreases chars@.len() - i,
    {
        let c = chars[i];
        proof {
            lemma_split_nonempty(chars@.subrange(0, i as int));
            assert(chars@.subrange(0, i + 1).drop_last() =~= chars@.subrange(0, i as int));
        }
        if c == '/' {
            done.push(current);
            current = Vec::new();
        } else {
            current.push(c);
        }
        i = i + 1;
    }
    proof {
        assert(chars@.subrange(0, chars@.len() as int) =~= chars@);
        lemma_split_nonempty(chars@);
    }
    done.push(current);
    done
}

} // verus!
