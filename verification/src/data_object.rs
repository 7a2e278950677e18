use vstd::prelude::*;

use crate::data_response::{spec_set_contents, DataResponseBuffer};
use crate::status::StatusWord;

verus! {

/// A resolved reference to a well-known data object, derived from the
/// object-path bytes of a data-retrieval payload.  Resolution is a literal
/// match against a small closed set of path encodings.
#[derive(Clone, Copy, Debug, PartialEq, Eq, Structural)]
pub enum DataObjectIdentifier {
    /// The one provisioned certificate slot: the first retired
    /// key-management certificate, path `5F C1 0D`.
    RetiredKeyCertificate,
    /// Another slot of the retired-certificate family (`5F C1 0E` through
    /// `5F C1 17`): recognized, but deliberately not provisioned.
    OtherRetiredSlot,
    /// Not a known object path.
    UnknownObject,
}

/// Which identifier a given object path resolves to.
pub open spec fn spec_resolve_object(path: Seq<u8>) -> DataObjectIdentifier {
    if path.len() == 3 && path[0] == 0x5F && path[1] == 0xC1 && path[2] == 0x0D {
        DataObjectIdentifier::RetiredKeyCertificate
    } else if path.len() == 3 && path[0] == 0x5F && path[1] == 0xC1 && 0x0E <= path[2]
        <= 0x17 {
        DataObjectIdentifier::OtherRetiredSlot
    } else {
        DataObjectIdentifier::UnknownObject
    }
}

impl DataObjectIdentifier {
    /// Resolves the object-path bytes that follow the outer tag of a
    /// data-retrieval payload.
    pub fn from(path: &[u8]) -> (r: DataObjectIdentifier)
        ensures
            r == spec_resolve_object(path@),
    {
        if path.len() == 3 && path[0] == 0x5F && path[1] == 0xC1 && path[2] == 0x0D {
            DataObjectIdentifier::RetiredKeyCertificate
        } else if path.len() == 3 && path[0] == 0x5F && path[1] == 0xC1 && 0x0E <= path[2]
            && path[2] <= 0x17 {
            DataObjectIdentifier::OtherRetiredSlot
        } else {
            DataObjectIdentifier::UnknownObject
        }
    }

    /// Populates the response buffer with the object's bytes.  Only the
    /// provisioned certificate slot succeeds; an unknown path, and a
    /// recognized but unprovisioned slot, fail explicitly with file not
    /// found and leave the buffer untouched.
    pub fn handle(&self, cert: &[u8], buffer: &mut DataResponseBuffer) -> (r: Result<
        (),
        StatusWord,
    >)
        ensures
            *self is RetiredKeyCertificate ==> {
                &&& r == Ok::<(), StatusWord>(())
                &&& final(buffer).wf()
                &&& final(buffer).bytes() == spec_set_contents(cert@)
                &&& final(buffer).cursor() == 0
            },
            !(*self is RetiredKeyCertificate) ==> {
                &&& r == Err::<(), StatusWord>(StatusWord::FileNotFound)
                &&& *final(buffer) == *old(buffer)
            },
    {
        match self {
            DataObjectIdentifier::RetiredKeyCertificate => {
                buffer.set(cert);
                Ok(())
            },
            DataObjectIdentifier::OtherRetiredSlot => Err(StatusWord::FileNotFound),
            DataObjectIdentifier::UnknownObject => Err(StatusWord::FileNotFound),
        }
    }
}

} // verus!
