use vstd::prelude::*;

use crate::constants::SchoolType;
use crate::error::SchoolError;

verus! {

/// The code point of `c`, an ASCII capital folded to its small letter.
pub open spec fn ascii_lower(c: char) -> int {
    if 65 <= c as int && c as int <= 90 {
        c as int + 32
    } else {
        c as int
    }
}

/// `a` and `b` spell the same word when ASCII case is ignored.
pub open spec fn eq_ignore_ascii_case(a: Seq<char>, b: Seq<char>) -> bool {
    a.len() == b.len() && forall|i: int|
        0 <= i < a.len() ==> ascii_lower(a[i]) == ascii_lower(b[i])
}

/// Executable ASCII case folding of one character's code point.
fn ascii_lower_char(c: char) -> (n: u32)
    ensures
        n == ascii_lower(c),
{
    let n = c as u32;
    if 65 <= n && n <= 90 {
        n + 32
    } else {
        n
    }
}

/// Character-for-character string equality.
pub fn str_eq(a: &str, b: &str) -> (r: bool)
    ensures
        r == (a@ == b@),
{
    let a_len = a.unicode_len();
    if a_len != b.unicode_len() {
        return false;
    }
    let mut i: usize = 0;
    while i < a_len
        invariant
            i <= a_len,
            a_len == a@.len(),
            a@.len() == b@.len(),
            forall|j: int| 0 <= j < i ==> a@[j] == b@[j],
        decreases a_len - i,
    {
        if a.get_char(i) != b.get_char(i) {
            return false;
        }
        i += 1;
    }
    proof {
        assert(a@ =~= b@);
    }
    true
}

/// String equality that ignores ASCII case.
pub fn str_eq_ignore_ascii_case(a: &str, b: &str) -> (r: bool)
    ensures
        r == eq_ignore_ascii_case(a@, b@),
{
    let a_len = a.unicode_len();
    if a_len != b.unicode_len() {
        return false;
    }
    let mut i: usize = 0;
    while i < a_len
        invariant
            i <= a_len,
            a_len == a@.len(),
            a@.len() == b@.len(),
            forall|j: int| 0 <= j < i ==> ascii_lower(a@[j]) == ascii_lower(b@[j]),
        decreases a_len - i,
    {
        if ascii_lower_char(a.get_char(i)) != ascii_lower_char(b.get_char(i)) {
            return false;
        }
        i += 1;
    }
    true
}

impl SchoolType {
    /// Whether `sch_type` names a known school kind, compared without
    /// regard to ASCII case. The check never fails; the verdict is the
    /// boolean inside the `Ok`.
    pub fn is_school_type(sch_type: &str) -> (r: Result<bool, SchoolError>)
        ensures
            r == Ok::<bool, SchoolError>(
                eq_ignore_ascii_case(sch_type@, "highschool"@) || eq_ignore_ascii_case(
                    sch_type@,
                    "college"@,
                ) || eq_ignore_ascii_case(sch_type@, "university"@),
            ),
    {
        let known = str_eq_ignore_ascii_case(sch_type, "highschool") || str_eq_ignore_ascii_case(
            sch_type,
            "college",
        ) || str_eq_ignore_ascii_case(sch_type, "university");
        Ok(known)
    }
}

} // verus!
