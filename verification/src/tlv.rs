use vstd::prelude::*;
use vstd::slice::slice_subrange;

use crate::error::PIVError;

verus! {

/// A byte slice starts with one well-formed tag-length-value node: a tag
/// byte, a length byte, and at least that many value bytes after them.
pub open spec fn spec_tlv_ok(d: Seq<u8>) -> bool {
    d.len() >= 2 && 2 + d[1] <= d.len()
}

/// The value bytes of the node at the head of `d`: exactly `d[1]` bytes
/// immediately following the length byte.
pub open spec fn spec_tlv_value(d: Seq<u8>) -> Seq<u8>
    recommends
        spec_tlv_ok(d),
{
    d.subrange(2, 2 + d[1] as int)
}

/// Decodes one tag-length-value node from the head of `data`.  Bytes after
/// the node are ignored; a slice too short for the declared length fails as
/// wrong data.  Nested nodes are decoded by re-invoking this on the value
/// or on a caller-sliced remainder.
pub fn decode_tlv<'a>(data: &'a [u8]) -> (r: Result<(u8, u8, &'a [u8]), PIVError>)
    ensures
        (r matches Ok(node)) <==> spec_tlv_ok(data@),
        r matches Ok(node) ==> ({
            &&& node.0 == data@[0]
            &&& node.1 == data@[1]
            &&& node.2@ == spec_tlv_value(data@)
        }),
        r matches Err(e) ==> e == PIVError::WrongData,
{
    if data.len() < 2 {
        return Err(PIVError::WrongData);
    }
    let tag = data[0];
    let len = data[1];
    if data.len() - 2 < len as usize {
        return Err(PIVError::WrongData);
    }
    let value = slice_subrange(data, 2, 2 + len as usize);
    Ok((tag, len, value))
}

} // verus!
