//! Strings as sequences of characters.

use vstd::prelude::*;

verus! {

/// The characters of a string that may be absent.
pub open spec fn text_of(s: Option<String>) -> Option<Seq<char>> {
    match s {
        Some(s) => Some(s@),
        None => None,
    }
}

/// The characters of each string of a list, in order.
pub open spec fn texts(lines: Seq<String>) -> Seq<Seq<char>> {
    Seq::new(lines.len(), |i: int| lines[i]@)
}

/// Whether the character has Unicode's `White_Space` property: what
/// `char::is_whitespace` returns for it, and what `str::trim` takes for
/// whitespace.
pub uninterp spec fn is_whitespace(c: char) -> bool;

/// How many characters at the front of `s` are whitespace, up to the first
/// that is not.
pub open spec fn leading_whitespace(s: Seq<char>) -> nat
    decreases s.len(),
{
    if s.len() == 0 || !is_whitespace(s[0]) {
        0
    } else {
        1 + leading_whitespace(s.drop_first())
    }
}

/// How many characters at the back of `s` are whitespace, down to the last
/// that is not.
pub open spec fn trailing_whitespace(s: Seq<char>) -> nat
    decreases s.len(),
{
    if s.len() == 0 || !is_whitespace(s.last()) {
        0
    } else {
        1 + trailing_whitespace(s.drop_last())
    }
}

/// `s` without the whitespace at its front and at its back: what lies from
/// its first character that is not whitespace to its last, or nothing where
/// all of it is whitespace.
pub open spec fn trimmed(s: Seq<char>) -> Seq<char> {
    if leading_whitespace(s) == s.len() {
        Seq::empty()
    } else {
        s.subrange(leading_whitespace(s) as int, s.len() - trailing_whitespace(s))
    }
}

/// Calls `str::trim`. Nothing is proved about this function. The contract
/// claims what the documentation of `str::trim` says, that the result is the
/// string with its leading and trailing whitespace removed: the result is a
/// piece of the string, every character of the string outside the piece is
/// whitespace, and the piece neither begins nor ends with whitespace.
/// Whitespace is what has Unicode's `White_Space` property.
#[verifier::external_body]
fn str_trim(s: &str) -> (t: &str)
    ensures
        exists|i: int|
            0 <= i <= s@.len() - t@.len() && t@ == #[trigger] s@.subrange(i, i + t@.len())
                && (forall|k: int|
                0 <= k < s@.len() && !(i <= k < i + t@.len()) ==> is_whitespace(#[trigger] s@[k])),
        t@.len() > 0 ==> !is_whitespace(t@[0]) && !is_whitespace(t@.last()),
{
    s.trim()
}

/// The string without the whitespace at its front and at its back.
pub fn trim(s: &str) -> (t: &str)
    ensures
        t@ == trimmed(s@),
{
    let t = str_trim(s);
    proof {
        let i = choose|i: int|
            0 <= i <= s@.len() - t@.len() && t@ == #[trigger] s@.subrange(i, i + t@.len())
                && (forall|k: int|
                0 <= k < s@.len() && !(i <= k < i + t@.len()) ==> is_whitespace(#[trigger] s@[k]));
        if t@.len() > 0 {
            assert(t@[0] == s@[i]);
            assert(t@.last() == s@[i + t@.len() - 1]);
        }
        lemma_inner_part_is_trimmed(s@, i, i + t@.len());
    }
    t
}

/// The count of whitespace at the front is the one position that has only
/// whitespace before it and is the end of the text or not whitespace.
proof fn lemma_leading_whitespace_is(s: Seq<char>, n: int)
    requires
        0 <= n <= s.len(),
        forall|k: int| 0 <= k < n ==> is_whitespace(#[trigger] s[k]),
        n == s.len() || !is_whitespace(s[n]),
    ensures
        leading_whitespace(s) == n,
    decreases s.len(),
{
    if n > 0 {
        let rest = s.drop_first();
        assert(is_whitespace(s[0]));
        assert forall|k: int| 0 <= k < n - 1 implies is_whitespace(#[trigger] rest[k]) by {
            assert(rest[k] == s[k + 1]);
        }
        if n < s.len() {
            assert(rest[n - 1] == s[n]);
        }
        lemma_leading_whitespace_is(rest, n - 1);
    }
}

/// The count of whitespace at the back is the one length that has only
/// whitespace in it and has before it nothing or what is not whitespace.
proof fn lemma_trailing_whitespace_is(s: Seq<char>, n: int)
    requires
        0 <= n <= s.len(),
        forall|k: int| s.len() - n <= k < s.len() ==> is_whitespace(#[trigger] s[k]),
        n == s.len() || !is_whitespace(s[s.len() - n - 1]),
    ensures
        trailing_whitespace(s) == n,
    decreases s.len(),
{
    if n > 0 {
        let front = s.drop_last();
        assert(is_whitespace(s[s.len() - 1]));
        assert forall|k: int| front.len() - (n - 1) <= k < front.len() implies is_whitespace(
            #[trigger] front[k],
        ) by {
            assert(front[k] == s[k]);
        }
        if n < s.len() {
            assert(front[front.len() - (n - 1) - 1] == s[s.len() - n - 1]);
        }
        lemma_trailing_whitespace_is(front, n - 1);
    }
}

/// A piece of the text with only whitespace around it, which neither begins
/// nor ends with whitespace, is the trimmed text: there is no other.
pub proof fn lemma_inner_part_is_trimmed(s: Seq<char>, i: int, j: int)
    requires
        0 <= i <= j <= s.len(),
        forall|k: int| 0 <= k < i ==> is_whitespace(#[trigger] s[k]),
        forall|k: int| j <= k < s.len() ==> is_whitespace(#[trigger] s[k]),
        i < j ==> !is_whitespace(s[i]) && !is_whitespace(s[j - 1]),
    ensures
        s.subrange(i, j) == trimmed(s),
{
    if i == j {
        lemma_leading_whitespace_is(s, s.len() as int);
        assert(s.subrange(i, j) =~= trimmed(s));
    } else {
        lemma_leading_whitespace_is(s, i);
        lemma_trailing_whitespace_is(s, s.len() - j);
    }
}

/// The whitespace at the front: every character counted is whitespace, and
/// the one after them, if any, is not.
proof fn lemma_leading_whitespace(s: Seq<char>)
    ensures
        leading_whitespace(s) <= s.len(),
        forall|k: int| 0 <= k < leading_whitespace(s) ==> is_whitespace(#[trigger] s[k]),
        leading_whitespace(s) < s.len() ==> !is_whitespace(s[leading_whitespace(s) as int]),
    decreases s.len(),
{
    if !(s.len() == 0 || !is_whitespace(s[0])) {
        let rest = s.drop_first();
        lemma_leading_whitespace(rest);
        assert forall|k: int| 0 <= k < leading_whitespace(s) implies is_whitespace(
            #[trigger] s[k],
        ) by {
            if k > 0 {
                assert(rest[k - 1] == s[k]);
            }
        }
        if leading_whitespace(s) < s.len() {
            assert(rest[leading_whitespace(rest) as int] == s[leading_whitespace(s) as int]);
        }
    }
}

/// The whitespace at the back: every character counted is whitespace, and
/// the one before them, if any, is not.
proof fn lemma_trailing_whitespace(s: Seq<char>)
    ensures
        trailing_whitespace(s) <= s.len(),
        forall|k: int|
            s.len() - trailing_whitespace(s) <= k < s.len() ==> is_whitespace(#[trigger] s[k]),
        trailing_whitespace(s) < s.len() ==> !is_whitespace(
            s[s.len() - trailing_whitespace(s) - 1],
        ),
    decreases s.len(),
{
    if !(s.len() == 0 || !is_whitespace(s.last())) {
        let front = s.drop_last();
        lemma_trailing_whitespace(front);
        assert forall|k: int|
            s.len() - trailing_whitespace(s) <= k < s.len() implies is_whitespace(
            #[trigger] s[k],
        ) by {
            if k < s.len() - 1 {
                assert(front[k] == s[k]);
            }
        }
        if trailing_whitespace(s) < s.len() {
            assert(front[front.len() - trailing_whitespace(front) - 1] == s[s.len()
                - trailing_whitespace(s) - 1]);
        }
    }
}

/// Trimming cuts a piece out of the text: everything before the piece and
/// everything after it is whitespace, and the piece neither begins nor ends
/// with whitespace.
pub proof fn lemma_trimmed_is_the_inner_part(s: Seq<char>)
    ensures
        exists|i: int, j: int|
            0 <= i <= j <= s.len() && #[trigger] s.subrange(i, j) == trimmed(s) && (forall|k: int|
                0 <= k < i ==> is_whitespace(#[trigger] s[k])) && (forall|k: int|
                j <= k < s.len() ==> is_whitespace(#[trigger] s[k])),
        trimmed(s).len() > 0 ==> !is_whitespace(trimmed(s)[0]) && !is_whitespace(
            trimmed(s).last(),
        ),
{
    lemma_leading_whitespace(s);
    lemma_trailing_whitespace(s);
    let lead = leading_whitespace(s) as int;
    let trail = trailing_whitespace(s) as int;
    if lead == s.len() {
        assert(s.subrange(lead, lead) =~= trimmed(s));
    } else {
        assert(!is_whitespace(s[lead]));
        assert(lead < s.len() - trail);
        assert(trimmed(s)[0] == s[lead]);
        assert(trimmed(s).last() == s[s.len() - trail - 1]);
        assert(s.subrange(lead, s.len() - trail) == trimmed(s));
    }
}

/// Text that neither begins nor ends with whitespace is kept as it is.
pub proof fn lemma_trimmed_keeps_clean_text(s: Seq<char>)
    requires
        s.len() > 0 ==> !is_whitespace(s[0]) && !is_whitespace(s.last()),
    ensures
        trimmed(s) == s,
{
    if s.len() == 0 {
        assert(trimmed(s) =~= s);
    } else {
        assert(s.subrange(0, s.len() as int) =~= s);
    }
}

/// Text that is all whitespace is trimmed to nothing.
pub proof fn lemma_trimmed_whitespace_is_empty(s: Seq<char>)
    requires
        forall|k: int| 0 <= k < s.len() ==> is_whitespace(#[trigger] s[k]),
    ensures
        trimmed(s).len() == 0,
{
    lemma_leading_whitespace(s);
}

/// Trimming twice is trimming once.
pub proof fn lemma_trimmed_twice(s: Seq<char>)
    ensures
        trimmed(trimmed(s)) == trimmed(s),
{
    lemma_trimmed_is_the_inner_part(s);
    lemma_trimmed_keeps_clean_text(trimmed(s));
}

} // verus!
