//! Validation of the text fields handed to the notification subsystem.
//!
//! Every string crossing into the subsystem must be representable as a
//! nul-terminated byte string, so a string with an interior nul byte is
//! rejected before any native call is made.  The checks here are shared
//! by notification creation and by updates, and check the fields in a
//! fixed order: summary first, then body, then icon.

use vstd::prelude::*;

use crate::errors::NotificationCreationError;

verus! {

use vstd::string::StringSliceAdditionalSpecFns;
use vstd::utf8::encode_utf8;

/// Whether the byte sequence contains a nul byte.
pub open spec fn has_nul(bs: Seq<u8>) -> bool {
    exists|i: int| 0 <= i < bs.len() && bs[i] == 0
}

/// Whether `p` is the index of the first nul byte of `bs`.
pub open spec fn is_first_nul(bs: Seq<u8>, p: int) -> bool {
    &&& 0 <= p < bs.len()
    &&& bs[p] == 0
    &&& forall|j: int| 0 <= j < p ==> bs[j] != 0
}

/// Whether the UTF-8 encoding of the character sequence contains a nul
/// byte.
pub open spec fn chars_have_nul(cs: Seq<char>) -> bool {
    has_nul(encode_utf8(cs))
}

/// Whether an optional text field, when present, contains a nul byte.
pub open spec fn opt_has_nul(s: Option<&str>) -> bool {
    match s {
        Some(t) => chars_have_nul(t@),
        None => false,
    }
}

/// The character sequence of an optional text field.
pub open spec fn opt_view(s: Option<&str>) -> Option<Seq<char>> {
    match s {
        Some(t) => Some(t@),
        None => None,
    }
}

/// Whether all three text fields of a notification are clean: none
/// contains a nul byte.
pub open spec fn texts_ok(summary: &str, body: Option<&str>, icon: Option<&str>) -> bool {
    &&& !chars_have_nul(summary@)
    &&& !opt_has_nul(body)
    &&& !opt_has_nul(icon)
}

/// Looks for an interior nul byte, returning the byte index of the first
/// one, if any.
pub fn find_nul(s: &str) -> (r: Option<usize>)
    ensures
        match r {
            Some(p) => is_first_nul(s.spec_bytes(), p as int),
            None => !has_nul(s.spec_bytes()),
        },
        r is None <==> !chars_have_nul(s@),
{
    let bytes = s.as_bytes();
    let n = bytes.len();
    let mut i: usize = 0;
    while i < n
        invariant
            n == s.spec_bytes().len(),
            bytes@ == s.spec_bytes(),
            0 <= i <= n,
            forall|j: int| 0 <= j < i ==> s.spec_bytes()[j] != 0,
        decreases n - i,
    {
        if bytes[i] == 0 {
            return Some(i);
        }
        i = i + 1;
    }
    None
}

/// Checks the three text fields of a notification in order: summary,
/// then body, then icon.  Returns the encoding error for the first field
/// that contains a nul byte, and nothing when all fields are clean.
pub fn check_texts(summary: &str, body: Option<&str>, icon: Option<&str>) -> (r: Option<
    NotificationCreationError,
>)
    ensures
        r is None <==> (!chars_have_nul(summary@) && !opt_has_nul(body) && !opt_has_nul(icon)),
        chars_have_nul(summary@) ==> (r matches Some(NotificationCreationError::NulError(p))
            && is_first_nul(summary.spec_bytes(), p as int)),
        !chars_have_nul(summary@) && opt_has_nul(body) ==> (body matches Some(b) ==> (r matches Some(
            NotificationCreationError::NulError(p),
        ) && is_first_nul(b.spec_bytes(), p as int))),
        !chars_have_nul(summary@) && !opt_has_nul(body) && opt_has_nul(icon) ==> (icon matches Some(
            ic,
        ) ==> (r matches Some(NotificationCreationError::NulError(p)) && is_first_nul(
            ic.spec_bytes(),
            p as int,
        ))),
{
    if let Some(p) = find_nul(summary) {
        return Some(NotificationCreationError::NulError(p));
    }
    if let Some(b) = body {
        if let Some(p) = find_nul(b) {
            return Some(NotificationCreationError::NulError(p));
        }
    }
    if let Some(ic) = icon {
        if let Some(p) = find_nul(ic) {
            return Some(NotificationCreationError::NulError(p));
        }
    }
    None
}

} // verus!
