use vstd::prelude::*;
use vstd::string::StringSliceAdditionalSpecFns;

verus! {

/// Whether a header field `name: value` (name in lowercase) is specific to one
/// connection hop, and so invalid in a multiplexed session: `connection`,
/// `keep-alive`, `proxy-connection`, `transfer-encoding`, `upgrade`, and `te`
/// unless its value is `trailers`.
pub open spec fn connection_specific(name: Seq<u8>, value: Seq<u8>) -> bool {
    name == "connection".spec_bytes() || name == "keep-alive".spec_bytes() || name == "proxy-connection".spec_bytes() || name
        == "transfer-encoding".spec_bytes() || name == "upgrade".spec_bytes() || (name == "te".spec_bytes() && value != "trailers".spec_bytes())
}

fn bytes_eq(a: &[u8], b: &[u8]) -> (r: bool)
    ensures
        r == (a@ == b@),
{
    if a.len() != b.len() {
        return false;
    }
    let mut i: usize = 0;
    while i < a.len()
        invariant
            a@.len() == b@.len(),
            i <= a@.len(),
            forall|j: int| 0 <= j < i ==> a@[j] == b@[j],
        decreases a@.len() - i,
    {
        if a[i] != b[i] {
            return false;
        }
        i = i + 1;
    }
    assert(a@ =~= b@);
    true
}

/// Whether the header field `name: value` (name in lowercase) is to be
/// stripped before the request goes out.
pub fn is_connection_specific(name: &[u8], value: &[u8]) -> (r: bool)
    ensures
        r == connection_specific(name@, value@),
{
    bytes_eq(name, "connection".as_bytes()) || bytes_eq(name, "keep-alive".as_bytes()) || bytes_eq(
        name,
        "proxy-connection".as_bytes(),
    ) || bytes_eq(name, "transfer-encoding".as_bytes()) || bytes_eq(name, "upgrade".as_bytes()) || (bytes_eq(
        name,
        "te".as_bytes(),
    ) && !bytes_eq(value, "trailers".as_bytes()))
}

/// The length to declare on an outgoing request: the body's length, where the
/// body knows it and the request does not already declare one.
pub fn content_length_to_set(body_length: Option<u64>, declared: bool) -> (r: Option<u64>)
    ensures
        r == (if declared {
            None
        } else {
            body_length
        }),
{
    if declared {
        None
    } else {
        body_length
    }
}

} // verus!
