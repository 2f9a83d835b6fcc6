use vstd::prelude::*;

verus! {

/// The Unicode `White_Space` property, by code point.
pub open spec fn is_white_space(c: char) -> bool {
    let n = c as u32;
    (0x9 <= n && n <= 0xd) || n == 0x20 || n == 0x85 || n == 0xa0 || n == 0x1680 || (0x2000 <= n
        && n <= 0x200a) || n == 0x2028 || n == 0x2029 || n == 0x202f || n == 0x205f || n == 0x3000
}

/// Every character of `s` is white space (so an empty `s` is blank too).
pub open spec fn is_blank_text(s: Seq<char>) -> bool {
    forall|k: int| 0 <= k < s.len() ==> is_white_space(#[trigger] s[k])
}

/// `needle` occurs in `hay` as a contiguous run of characters.
pub open spec fn has_substring(hay: Seq<char>, needle: Seq<char>) -> bool {
    exists|i: int|
        0 <= i && i + needle.len() <= hay.len() && #[trigger] hay.subrange(i, i + needle.len())
            == needle
}

/// A transport error text that signals a transient overload of the model.
pub open spec fn is_overload_text(s: Seq<char>) -> bool {
    has_substring(s, "503"@) || has_substring(s, "overloaded"@)
}

/// `t` is `s` with its leading and trailing white space removed.
pub open spec fn is_trim_of(s: Seq<char>, t: Seq<char>) -> bool {
    &&& exists|i: int, j: int|
        0 <= i <= j <= s.len() && t == s.subrange(i, j) && (forall|k: int|
            0 <= k < i ==> is_white_space(#[trigger] s[k])) && (forall|k: int|
            j <= k < s.len() ==> is_white_space(#[trigger] s[k]))
    &&& t.len() > 0 ==> !is_white_space(t[0]) && !is_white_space(t[t.len() - 1])
}

/// Relies on `str::trim`: the slice of `s` with leading and trailing
/// Unicode white space removed.
#[verifier::external_body]
fn trim(s: &str) -> (r: &str)
    ensures
        is_trim_of(s@, r@),
{
    s.trim()
}

/// Relies on `str::contains` with a `&str` pattern: whether `needle`
/// matches a sub-slice of `hay`.
#[verifier::external_body]
fn contains(hay: &str, needle: &str) -> (r: bool)
    ensures
        r == has_substring(hay@, needle@),
{
    hay.contains(needle)
}

/// Whether `s` is empty once surrounding white space is trimmed.
pub fn is_blank(s: &str) -> (r: bool)
    ensures
        r == is_blank_text(s@),
{
    let t = trim(s);
    let r = t.is_empty();
    proof {
        let (i, j) = choose|i: int, j: int|
            0 <= i <= j <= s@.len() && t@ == s@.subrange(i, j) && (forall|k: int|
                0 <= k < i ==> is_white_space(#[trigger] s@[k])) && (forall|k: int|
                j <= k < s@.len() ==> is_white_space(#[trigger] s@[k]));
        if r {
            assert(i == j);
            assert forall|k: int| 0 <= k < s@.len() implies is_white_space(#[trigger] s@[k]) by {
                if k >= i {
                    assert(j <= k);
                }
            }
        } else {
            assert(t@[0] == s@[i]);
        }
    }
    r
}

/// Whether a transport error message signals a transient overload:
/// it holds `503` or `overloaded` (case-sensitive).
pub fn is_overload_message(msg: &str) -> (r: bool)
    ensures
        r == is_overload_text(msg@),
{
    contains(msg, "503") || contains(msg, "overloaded")
}

} // verus!
