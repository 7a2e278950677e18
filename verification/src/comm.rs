use vstd::prelude::*;

use crate::error::{spec_error_value, PIVError};
use crate::status::{spec_status_value, StatusWord};

verus! {

/// One received command packet: a command code, the two parameter bytes,
/// and the payload as the transport reported it.  A failed payload read is
/// carried as the transport's own status word.
pub struct Command {
    pub code: u8,
    pub p1: u8,
    pub p2: u8,
    pub data: Result<Vec<u8>, u16>,
}

/// The effect of one handled command: the outgoing payload bytes and the
/// 16-bit status word that terminates the exchange.
pub struct Reply {
    pub payload: Vec<u8>,
    pub status: u16,
}

/// A reply that reports `sw` and carries no payload.
pub open spec fn spec_failure_reply(r: Reply, sw: StatusWord) -> bool {
    r.payload@.len() == 0 && r.status == spec_status_value(sw)
}

impl Reply {
    /// A failure reply: the given status word and no payload bytes.
    pub fn failure(sw: StatusWord) -> (r: Reply)
        ensures
            spec_failure_reply(r, sw),
    {
        Reply { payload: Vec::new(), status: u16::from(sw) }
    }

    /// An error reply: the error's wire value and no payload bytes.
    pub fn from_error(e: PIVError) -> (r: Reply)
        ensures
            r.payload@.len() == 0,
            r.status == spec_error_value(e),
    {
        Reply { payload: Vec::new(), status: u16::from(e) }
    }

    /// A success reply carrying the given payload.
    pub fn success(payload: Vec<u8>) -> (r: Reply)
        ensures
            r.payload == payload,
            r.status == spec_status_value(StatusWord::Success),
    {
        Reply { payload, status: 0x9000 }
    }
}

/// What `Command::expect_parameters` returns: the first parameter byte is
/// checked before the second, and each failure reports the expected and the
/// actual byte.
pub open spec fn spec_expect_parameters(
    actual_p1: u8,
    actual_p2: u8,
    p1: u8,
    p2: u8,
) -> Result<(), PIVError> {
    if actual_p1 != p1 {
        Err(PIVError::IncorrectP1 { expected: p1, actual: actual_p1 })
    } else if actual_p2 != p2 {
        Err(PIVError::IncorrectP2 { expected: p2, actual: actual_p2 })
    } else {
        Ok(())
    }
}

impl Command {
    /// Reads the two parameter bytes; always succeeds.
    pub fn parameters(&self) -> (r: (u8, u8))
        ensures
            r == (self.p1, self.p2),
    {
        (self.p1, self.p2)
    }

    /// Checks the parameter bytes against the values the handler requires:
    /// P1 first, then P2, succeeding only if both match exactly.
    pub fn expect_parameters(&self, p1: u8, p2: u8) -> (r: Result<(), PIVError>)
        ensures
            r == spec_expect_parameters(self.p1, self.p2, p1, p2),
    {
        let (actual_p1, actual_p2) = self.parameters();
        if actual_p1 != p1 {
            Err(PIVError::IncorrectP1 { expected: p1, actual: actual_p1 })
        } else if actual_p2 != p2 {
            Err(PIVError::IncorrectP2 { expected: p2, actual: actual_p2 })
        } else {
            Ok(())
        }
    }

    /// Returns the payload, or forwards the transport-reported read error.
    pub fn data(&self) -> (r: Result<&Vec<u8>, PIVError>)
        ensures
            self.data matches Ok(d) ==> (r matches Ok(v) && v@ == d@),
            self.data matches Err(status) ==> r == Err::<&Vec<u8>, PIVError>(
                PIVError::DataError { status },
            ),
    {
        match &self.data {
            Ok(d) => Ok(d),
            Err(status) => Err(PIVError::DataError { status: *status }),
        }
    }

    /// Succeeds only if the payload is byte-exact equal to `expected`;
    /// a differing payload is wrong data, a failed read is forwarded.
    pub fn expect_data(&self, expected: &[u8]) -> (r: Result<(), PIVError>)
        ensures
            self.data matches Err(status) ==> r == Err::<(), PIVError>(
                PIVError::DataError { status },
            ),
            self.data matches Ok(d) ==> r == (if d@ == expected@ {
                Ok::<(), PIVError>(())
            } else {
                Err::<(), PIVError>(PIVError::WrongData)
            }),
    {
        match self.data() {
            Ok(d) => {
                if bytes_eq(d.as_slice(), expected) {
                    Ok(())
                } else {
                    Err(PIVError::WrongData)
                }
            },
            Err(e) => Err(e),
        }
    }
}

/// Byte-exact comparison of two slices.
pub fn bytes_eq(a: &[u8], b: &[u8]) -> (r: bool)
    ensures
        r == (a@ == b@),
{
    if a.len() != b.len() {
        return false;
    }
    let mut i: usize = 0;
    while i < a.len()
        invariant
            i <= a@.len(),
            a@.len() == b@.len(),
            forall|j: int| 0 <= j < i ==> a@[j] == b@[j],
        decreases a@.len() - i,
    {
        if a[i] != b[i] {
            return false;
        }
        i += 1;
    }
    proof {
        assert(a@ =~= b@);
    }
    true
}

/// The success side of a handler outcome; its wire values pair with the
/// error taxonomy to close the status-word mapping.
#[derive(Clone, Copy, Debug, PartialEq, Eq, Structural)]
pub enum PIVReply {
    /// Success, no continuation pending.
    Success,
    /// Success with the given number of response bytes still pending.
    MoreDataAvailable(u8),
}

/// The 16-bit wire value of a success reply.
pub open spec fn spec_reply_value(r: PIVReply) -> u16 {
    match r {
        PIVReply::Success => 0x9000u16,
        PIVReply::MoreDataAvailable(n) => (0x6100 + n as u16) as u16,
    }
}

impl From<PIVReply> for u16 {
    fn from(r: PIVReply) -> (w: u16) {
        match r {
            PIVReply::Success => 0x9000,
            PIVReply::MoreDataAvailable(n) => 0x6100 + n as u16,
        }
    }
}

impl vstd::std_specs::convert::FromSpecImpl<PIVReply> for u16 {
    open spec fn obeys_from_spec() -> bool {
        true
    }

    open spec fn from_spec(r: PIVReply) -> u16 {
        spec_reply_value(r)
    }
}

/// Collapses a handler outcome to the one status word it is reported with.
pub fn into_reply(outcome: Result<PIVReply, PIVError>) -> (w: u16)
    ensures
        outcome matches Ok(r) ==> w == spec_reply_value(r),
        outcome matches Err(e) ==> w == spec_error_value(e),
{
    match outcome {
        Ok(r) => u16::from(r),
        Err(e) => u16::from(e),
    }
}

} // verus!
