//! Character sequences: suffixes, joining with a separator, and the in-place
//! trim the item printer uses.

use vstd::prelude::*;
use vstd::string::*;

verus! {

/// `text` ends with `pat`.
pub open spec fn ends_with(text: Seq<char>, pat: Seq<char>) -> bool {
    pat.len() <= text.len() && text.subrange(text.len() - pat.len(), text.len() as int) == pat
}

/// `text` without one trailing `pat`; `text` itself where it does not end
/// with `pat`.
pub open spec fn strip_suffix(text: Seq<char>, pat: Seq<char>) -> Seq<char> {
    if ends_with(text, pat) {
        text.subrange(0, text.len() - pat.len())
    } else {
        text
    }
}

/// The parts in order with `sep` between each two neighbours.
pub open spec fn join(parts: Seq<Seq<char>>, sep: Seq<char>) -> Seq<char>
    decreases parts.len(),
{
    if parts.len() == 0 {
        Seq::empty()
    } else if parts.len() == 1 {
        parts[0]
    } else {
        join(parts.drop_last(), sep) + sep + parts.last()
    }
}

/// The parts in order, each followed by `sep`.
pub open spec fn terminated(parts: Seq<Seq<char>>, sep: Seq<char>) -> Seq<char>
    decreases parts.len(),
{
    if parts.len() == 0 {
        Seq::empty()
    } else {
        terminated(parts.drop_last(), sep) + parts.last() + sep
    }
}

/// One more part behind `parts` adds that part and `sep` to the terminated
/// text.
pub proof fn lemma_terminated_push(parts: Seq<Seq<char>>, part: Seq<char>, sep: Seq<char>)
    ensures
        terminated(parts.push(part), sep) == terminated(parts, sep) + part + sep,
{
    assert(parts.push(part).drop_last() == parts);
}

/// Joining is terminating without the last separator: for at least one part,
/// the terminated text is the joined text followed by `sep`.
pub proof fn lemma_terminated_is_join_then_sep(parts: Seq<Seq<char>>, sep: Seq<char>)
    requires
        parts.len() > 0,
    ensures
        terminated(parts, sep) == join(parts, sep) + sep,
    decreases parts.len(),
{
    if parts.len() == 1 {
        assert(parts.drop_last().len() == 0);
        assert(terminated(parts.drop_last(), sep) == Seq::<char>::empty());
        assert(terminated(parts, sep) == Seq::<char>::empty() + parts.last() + sep);
    } else {
        lemma_terminated_is_join_then_sep(parts.drop_last(), sep);
        assert(terminated(parts, sep) == (join(parts.drop_last(), sep) + sep) + parts.last()
            + sep);
    }
}

/// Stripping `pat` from a text that was built by appending `pat` gives back
/// what was there before.
pub proof fn lemma_strip_appended(text: Seq<char>, pat: Seq<char>)
    ensures
        ends_with(text + pat, pat),
        strip_suffix(text + pat, pat) == text,
{
    let whole = text + pat;
    assert(whole.subrange(whole.len() - pat.len(), whole.len() as int) == pat);
    assert(whole.subrange(0, whole.len() - pat.len()) == text);
}

/// How often `pat` occurs in `text`, counted by where an occurrence ends:
/// the number of non-empty prefixes of `text` that end with `pat`.
/// Occurrences that overlap are all counted.
pub open spec fn count_occurrences(text: Seq<char>, pat: Seq<char>) -> nat
    decreases text.len(),
{
    if text.len() == 0 {
        0
    } else {
        count_occurrences(text.drop_last(), pat) + if ends_with(text, pat) {
            1nat
        } else {
            0nat
        }
    }
}

/// No occurrence of `pat` in `a + b` begins in `a` and ends in `b`.
pub open spec fn no_straddle(a: Seq<char>, b: Seq<char>, pat: Seq<char>) -> bool {
    forall|k: int| 0 < k < pat.len() && k <= b.len() ==> !ends_with(a + #[trigger] b.take(k), pat)
}

/// A text shorter than `pat` holds no occurrence of it.
pub proof fn lemma_count_short(text: Seq<char>, pat: Seq<char>)
    requires
        text.len() < pat.len(),
    ensures
        count_occurrences(text, pat) == 0,
    decreases text.len(),
{
    if text.len() > 0 {
        lemma_count_short(text.drop_last(), pat);
    }
}

/// A text without the first character of `pat` holds no occurrence of it.
pub proof fn lemma_count_without_first_char(text: Seq<char>, pat: Seq<char>)
    requires
        pat.len() > 0,
        forall|i: int| 0 <= i < text.len() ==> text[i] != pat[0],
    ensures
        count_occurrences(text, pat) == 0,
    decreases text.len(),
{
    if text.len() > 0 {
        lemma_count_without_first_char(text.drop_last(), pat);
        if ends_with(text, pat) {
            let tail = text.subrange(text.len() - pat.len(), text.len() as int);
            assert(tail[0] == text[text.len() - pat.len()]);
        }
    }
}

/// Where no occurrence straddles the seam, the occurrences in `a + b` are
/// those in `a` and those in `b`.
pub proof fn lemma_count_concat(a: Seq<char>, b: Seq<char>, pat: Seq<char>)
    requires
        pat.len() > 0,
        no_straddle(a, b, pat),
    ensures
        count_occurrences(a + b, pat) == count_occurrences(a, pat) + count_occurrences(b, pat),
    decreases b.len(),
{
    if b.len() == 0 {
        assert(a + b == a);
    } else {
        let whole = a + b;
        let shorter = b.drop_last();
        assert(whole.drop_last() == a + shorter);
        assert forall|k: int| 0 < k < pat.len() && k <= shorter.len() implies !ends_with(
            a + #[trigger] shorter.take(k),
            pat,
        ) by {
            assert(shorter.take(k) == b.take(k));
        }
        lemma_count_concat(a, shorter, pat);
        if b.len() >= pat.len() {
            assert(whole.subrange(whole.len() - pat.len(), whole.len() as int) == b.subrange(
                b.len() - pat.len(),
                b.len() as int,
            ));
        } else {
            assert(b.take(b.len() as int) == b);
            assert(!ends_with(b, pat));
        }
    }
}

/// A seam is free of a two-character `pat` unless the character before it is
/// the first of `pat` and the character behind it the second.
pub proof fn lemma_no_straddle_pair(a: Seq<char>, b: Seq<char>, pat: Seq<char>)
    requires
        pat.len() == 2,
        !(a.len() > 0 && b.len() > 0 && a.last() == pat[0] && b[0] == pat[1]),
    ensures
        no_straddle(a, b, pat),
{
    assert forall|k: int| 0 < k < pat.len() && k <= b.len() implies !ends_with(
        a + #[trigger] b.take(k),
        pat,
    ) by {
        let text = a + b.take(k);
        if ends_with(text, pat) {
            let tail = text.subrange(text.len() - 2, text.len() as int);
            assert(tail[0] == pat[0]);
            assert(tail[1] == pat[1]);
            assert(tail[0] == a.last());
            assert(tail[1] == b[0]);
        }
    }
}

/// Joining parts that are free of a separator of two different characters
/// puts exactly one occurrence of it between each two neighbours, and none
/// elsewhere.
pub proof fn lemma_count_join(parts: Seq<Seq<char>>, sep: Seq<char>)
    requires
        sep.len() == 2,
        sep[0] != sep[1],
        parts.len() > 0,
        forall|i: int| 0 <= i < parts.len() ==> count_occurrences(#[trigger] parts[i], sep) == 0,
    ensures
        count_occurrences(join(parts, sep), sep) == parts.len() - 1,
    decreases parts.len(),
{
    if parts.len() > 1 {
        let front = join(parts.drop_last(), sep);
        lemma_count_join(parts.drop_last(), sep);
        lemma_no_straddle_pair(front, sep, sep);
        lemma_count_concat(front, sep, sep);
        lemma_count_pattern_itself(sep);
        lemma_no_straddle_pair(front + sep, parts.last(), sep);
        lemma_count_concat(front + sep, parts.last(), sep);
    }
}

/// A pattern of two characters occurs in itself once.
pub proof fn lemma_count_pattern_itself(pat: Seq<char>)
    requires
        pat.len() == 2,
    ensures
        count_occurrences(pat, pat) == 1,
{
    lemma_count_short(pat.drop_last(), pat);
    assert(pat.subrange(0, 2) == pat);
}

/// `str::ends_with` with a string slice as the pattern: true exactly when the
/// characters of `pat` are the last characters of `s`. An empty `pat` is a
/// suffix of every string.
#[verifier::external_body]
fn str_ends_with(s: &str, pat: &str) -> (b: bool)
    ensures
        b == ends_with(s@, pat@),
{
    s.ends_with(pat)
}

/// `String::pop`: removes the last character and returns it; on an empty
/// string it returns `None` and leaves the string empty.
pub assume_specification[ String::pop ](s: &mut String) -> (c: Option<char>)
    ensures
        old(s)@.len() == 0 ==> c is None && final(s)@ == old(s)@,
        old(s)@.len() > 0 ==> c == Some(old(s)@.last()) && final(s)@ == old(s)@.drop_last(),
;

/// Removes one trailing occurrence of `pat` from `s`, if `s` ends with it.
/// A match further inside `s` is never touched, and a second trailing
/// occurrence stays.
pub fn trim_in_place(s: &mut String, pat: &str)
    ensures
        final(s)@ == strip_suffix(old(s)@, pat@),
{
    if str_ends_with(s.as_str(), pat) {
        let n = pat.unicode_len();
        let mut removed: usize = 0;
        while removed < n
            invariant
                removed <= n,
                n == pat@.len(),
                n <= old(s)@.len(),
                s@ == old(s)@.subrange(0, old(s)@.len() - removed),
            decreases n - removed,
        {
            s.pop();
            removed += 1;
        }
    }
}

} // verus!
