use vstd::prelude::*;
use vstd::string::*;

verus! {

/// An ASCII letter or digit.
pub open spec fn is_ascii_alnum(c: char) -> bool {
    ('0' <= c && c <= '9') || ('A' <= c && c <= 'Z') || ('a' <= c && c <= 'z')
}

/// A character allowed in a scan name.
pub open spec fn scan_name_char(c: char) -> bool {
    is_ascii_alnum(c) || c == '_'
}

/// A character allowed in a workflow-variable key.
pub open spec fn var_key_char(c: char) -> bool {
    is_ascii_alnum(c) || c == '_' || c == '-'
}

/// Non-empty, and every character is an ASCII letter, digit or `_`.
pub open spec fn is_scan_name(s: Seq<char>) -> bool {
    s.len() > 0 && forall|i: int| 0 <= i < s.len() ==> #[trigger] scan_name_char(s[i])
}

/// Non-empty, and every character is an ASCII letter, digit, `_` or `-`.
pub open spec fn is_var_key(s: Seq<char>) -> bool {
    s.len() > 0 && forall|i: int| 0 <= i < s.len() ==> #[trigger] var_key_char(s[i])
}

fn is_ascii_alphanumeric(c: char) -> (r: bool)
    ensures
        r == is_ascii_alnum(c),
{
    ('0' <= c && c <= '9') || ('A' <= c && c <= 'Z') || ('a' <= c && c <= 'z')
}

/// Whether `s` may name a scan: non-empty, only ASCII letters, digits and `_`.
pub fn valid_scan_name(s: &str) -> (r: bool)
    ensures
        r == is_scan_name(s@),
{
    let n = s.unicode_len();
    if n == 0 {
        return false;
    }
    let mut i: usize = 0;
    while i < n
        invariant
            n == s@.len(),
            i <= n,
            forall|j: int| 0 <= j < i ==> #[trigger] scan_name_char(s@[j]),
        decreases n - i,
    {
        let c = s.get_char(i);
        if !(is_ascii_alphanumeric(c) || c == '_') {
            assert(!scan_name_char(s@[i as int]));
            return false;
        }
        i += 1;
    }
    true
}

/// Whether `s` may be the key of a workflow variable: non-empty, only ASCII
/// letters, digits, `_` and `-`.
pub fn valid_workflow_var_key(s: &str) -> (r: bool)
    ensures
        r == is_var_key(s@),
{
    let n = s.unicode_len();
    if n == 0 {
        return false;
    }
    let mut i: usize = 0;
    while i < n
        invariant
            n == s@.len(),
            i <= n,
            forall|j: int| 0 <= j < i ==> #[trigger] var_key_char(s@[j]),
        decreases n - i,
    {
        let c = s.get_char(i);
        if !(is_ascii_alphanumeric(c) || c == '_' || c == '-') {
            assert(!var_key_char(s@[i as int]));
            return false;
        }
        i += 1;
    }
    true
}

/// Validation depends on the characters alone: a value that was accepted is
/// accepted again by any later check of the same characters, and every scan
/// name is also a well-formed workflow-variable key.
pub proof fn lemma_revalidation(s: Seq<char>, t: Seq<char>)
    requires
        s == t,
    ensures
        is_scan_name(s) ==> is_scan_name(t),
        is_var_key(s) ==> is_var_key(t),
        is_scan_name(s) ==> is_var_key(s),
{
    if is_scan_name(s) {
        assert forall|i: int| 0 <= i < s.len() implies #[trigger] var_key_char(s[i]) by {
            assert(scan_name_char(s[i]));
        }
    }
}

} // verus!
