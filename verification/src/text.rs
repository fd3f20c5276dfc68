use vstd::prelude::*;
use vstd::string::StringSliceAdditionalSpecFns;

verus! {

/// The position of the first zero byte, or the length when there is none:
/// where a null-terminated text field ends.
pub open spec fn first_null(data: Seq<u8>) -> int
    decreases data.len(),
{
    if data.len() == 0 {
        0
    } else if data[0] == 0 {
        0
    } else {
        1 + first_null(data.drop_first())
    }
}

pub proof fn lemma_first_null(data: Seq<u8>, i: int)
    requires
        0 <= i <= data.len(),
        forall|m: int| 0 <= m < i ==> data[m] != 0,
        i == data.len() || data[i] == 0,
    ensures
        first_null(data) == i,
    decreases data.len(),
{
    if data.len() > 0 && data[0] != 0 {
        lemma_first_null(data.drop_first(), i - 1);
    }
}

/// Relies on core::str::from_utf8: it accepts exactly the byte sequences
/// that vstd's valid_utf8 describes, and the returned str is a view of
/// those same bytes.
#[verifier::external_body]
pub(crate) fn bytes_as_str(data: &[u8]) -> (r: Option<&str>)
    ensures
        r is Some <==> vstd::utf8::valid_utf8(data@),
        r matches Some(s) ==> s.spec_bytes() == data@,
{
    core::str::from_utf8(data).ok()
}

} // verus!
