//! Small verified helpers on text.
use vstd::prelude::*;
use vstd::string::StrSliceExecFns;

verus! {

/// The text does not name any value of the type it was read as.
#[derive(Clone, Copy, PartialEq, Eq, Structural, Debug)]
pub struct UnknownName;

/// The standard library's I/O error, which reading a name refuses text
/// with.
#[verifier::external_type_specification]
#[verifier::external_body]
pub struct ExIoError(std::io::Error);

/// The error text that names no value is refused with: an I/O error of kind
/// `Other` carrying `message`, made by
/// `std::io::Error::new(std::io::ErrorKind::Other, message)`. The error is
/// opaque here, so the contract claims nothing of its kind or message.
#[verifier::external_body]
pub(crate) fn other_io_error(message: &str) -> std::io::Error {
    std::io::Error::new(std::io::ErrorKind::Other, message)
}

/// Compares two string slices character by character.
pub fn same_text(a: &str, b: &str) -> (r: bool)
    ensures
        r == (a@ == b@),
{
    let n = a.unicode_len();
    let m = b.unicode_len();
    if n != m {
        return false;
    }
    let mut i: usize = 0;
    while i < n
        invariant
            n == a@.len(),
            m == b@.len(),
            n == m,
            i <= n,
            forall|j: int| 0 <= j < i ==> a@[j] == b@[j],
        decreases n - i,
    {
        if a.get_char(i) != b.get_char(i) {
            return false;
        }
        i = i + 1;
    }
    assert(a@ =~= b@);
    true
}

} // verus!
