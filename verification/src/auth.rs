use vstd::prelude::*;
use vstd::slice::{slice_subrange, slice_to_vec};

use crate::comm::{spec_failure_reply, Command, Reply};
use crate::status::{spec_status_value, StatusWord};
use crate::tlv::decode_tlv;

verus! {

/// A general-authenticate request envelope of the shape
/// `7C len { 82 00 } { 85 41 { 04 <64 bytes> } }`: an empty witness node
/// followed by a key-agreement node whose value is an uncompressed
/// elliptic-curve point.  Any deviation in a tag, a length or the
/// point-format marker makes the payload invalid.
pub open spec fn spec_ga_payload_valid(d: Seq<u8>) -> bool {
    &&& d.len() >= 2
    &&& d[0] == 0x7C
    &&& 2 + d[1] <= d.len()
    &&& d[1] >= 69
    &&& d[2] == 0x82
    &&& d[3] == 0x00
    &&& d[4] == 0x85
    &&& d[5] == 0x41
    &&& d[6] == 0x04
}

/// The uncompressed point (format marker plus 64 coordinate bytes)
/// carried by a valid envelope.
pub open spec fn spec_ga_point(d: Seq<u8>) -> Seq<u8>
    recommends
        spec_ga_payload_valid(d),
{
    d.subrange(6, 71)
}

/// Whether a general-authenticate command is accepted: the one supported
/// algorithm, a key reference in the supported retired-slot range, a
/// readable payload, and a valid envelope.
pub open spec fn spec_ga_accepts(cmd: Command) -> bool {
    &&& cmd.p1 == 0x11
    &&& 0x82 <= cmd.p2 <= 0x8C
    &&& cmd.data matches Ok(d) && spec_ga_payload_valid(d@)
}

/// The status a rejected general-authenticate command reports: an
/// unsupported algorithm or key reference dominates, any payload problem
/// is wrong data.
pub open spec fn spec_ga_reject_status(cmd: Command) -> StatusWord {
    if cmd.p1 != 0x11 || !(0x82 <= cmd.p2 <= 0x8C) {
        StatusWord::FuncNotSupported
    } else {
        StatusWord::WrongData
    }
}

/// What the authentication handler asks of its caller next.
pub enum GeneralAuthStep {
    /// The request is valid: the crypto collaborator must derive the
    /// device key and run key agreement against this 65-byte point, then
    /// hand the outcome to `general_auth_finish`.
    KeyAgreement { point: Vec<u8> },
    /// The request is rejected with this reply; the crypto collaborator
    /// is not invoked.
    Reject(Reply),
}

/// Validates a general-authenticate command.  On any structural mismatch
/// the command fails without partial output and without reaching the
/// crypto collaborator; on success the supplied point is handed back for
/// key agreement.
pub fn process_general_auth(cmd: &Command) -> (r: GeneralAuthStep)
    ensures
        !spec_ga_accepts(*cmd) ==> (r matches GeneralAuthStep::Reject(rep)
            && spec_failure_reply(rep, spec_ga_reject_status(*cmd))),
        spec_ga_accepts(*cmd) ==> (r matches GeneralAuthStep::KeyAgreement { point }
            && cmd.data matches Ok(d) && point@ == spec_ga_point(d@)),
{
    let (alg, key) = cmd.parameters();

    // Only one curve is supported.
    if alg != 0x11 {
        return GeneralAuthStep::Reject(Reply::failure(StatusWord::FuncNotSupported));
    }

    // Only the retired key-reference slots are supported.
    if key < 0x82 || key > 0x8C {
        return GeneralAuthStep::Reject(Reply::failure(StatusWord::FuncNotSupported));
    }

    let d: &Vec<u8> = match cmd.data() {
        Ok(d) => d,
        Err(_) => {
            return GeneralAuthStep::Reject(Reply::failure(StatusWord::WrongData));
        },
    };

    // Outer envelope.
    let (outer_tag, _outer_len, inner) = match decode_tlv(d.as_slice()) {
        Ok(node) => node,
        Err(_) => {
            return GeneralAuthStep::Reject(Reply::failure(StatusWord::WrongData));
        },
    };
    if outer_tag != 0x7C {
        return GeneralAuthStep::Reject(Reply::failure(StatusWord::WrongData));
    }

    // Empty witness node.
    let (witness_tag, witness_len, _witness) = match decode_tlv(inner) {
        Ok(node) => node,
        Err(_) => {
            return GeneralAuthStep::Reject(Reply::failure(StatusWord::WrongData));
        },
    };
    if witness_tag != 0x82 || witness_len != 0x00 {
        return GeneralAuthStep::Reject(Reply::failure(StatusWord::WrongData));
    }
    let rest = slice_subrange(inner, 2, inner.len());

    // Key-agreement node.
    let (dh_tag, dh_len, point_slice) = match decode_tlv(rest) {
        Ok(node) => node,
        Err(_) => {
            return GeneralAuthStep::Reject(Reply::failure(StatusWord::WrongData));
        },
    };
    if dh_tag != 0x85 || dh_len != 0x41 {
        return GeneralAuthStep::Reject(Reply::failure(StatusWord::WrongData));
    }

    // Uncompressed point-format marker.
    if point_slice[0] != 0x04 {
        return GeneralAuthStep::Reject(Reply::failure(StatusWord::WrongData));
    }

    proof {
        assert(inner@.len() == d@[1]);
        assert(rest@.len() == d@[1] - 2);
        assert(rest@[0] == inner@[2] && rest@[1] == inner@[3]);
        assert(inner@[2] == d@[4] && inner@[3] == d@[5]);
        assert(spec_ga_payload_valid(d@));
        assert forall|i: int| 0 <= i < 65 implies point_slice@[i] == d@[6 + i] by {
            assert(point_slice@[i] == rest@[2 + i]);
            assert(rest@[2 + i] == inner@[4 + i]);
            assert(inner@[4 + i] == d@[6 + i]);
        }
        assert(point_slice@ =~= spec_ga_point(d@));
    }
    let point = slice_to_vec(point_slice);
    GeneralAuthStep::KeyAgreement { point }
}

/// The fixed response envelope: `7C 22 82 20` followed by the 32-byte
/// shared secret.
pub open spec fn spec_ga_response(secret: Seq<u8>) -> Seq<u8> {
    seq![0x7Cu8, 0x22u8, 0x82u8, 0x20u8] + secret
}

/// Formats the reply once the crypto collaborator has answered.  A
/// 32-byte shared secret yields the fixed output envelope and success; a
/// collaborator failure is fatal to the command and reports a security
/// failure with no partial output.
pub fn general_auth_finish(secret: Option<&[u8]>) -> (r: Reply)
    ensures
        secret matches Some(s) ==> (if s@.len() == 32 {
            r.status == spec_status_value(StatusWord::Success) && r.payload@ == spec_ga_response(
                s@,
            )
        } else {
            spec_failure_reply(r, StatusWord::SecurityStatusNotSatisfied)
        }),
        secret matches None ==> spec_failure_reply(r, StatusWord::SecurityStatusNotSatisfied),
{
    match secret {
        Some(s) => {
            if s.len() == 32 {
                let mut payload: Vec<u8> = Vec::new();
                payload.push(0x7C);
                payload.push(0x22);
                payload.push(0x82);
                payload.push(0x20);
                proof {
                    assert(payload@ =~= seq![0x7Cu8, 0x22u8, 0x82u8, 0x20u8] + s@.take(0));
                }
                let mut i: usize = 0;
                while i < s.len()
                    invariant
                        i <= s@.len(),
                        payload@ == seq![0x7Cu8, 0x22u8, 0x82u8, 0x20u8] + s@.take(i as int),
                    decreases s@.len() - i,
                {
                    payload.push(s[i]);
                    proof {
                        assert(payload@ =~= seq![0x7Cu8, 0x22u8, 0x82u8, 0x20u8] + s@.take(
                            i + 1,
                        ));
                    }
                    i += 1;
                }
                proof {
                    assert(payload@ =~= spec_ga_response(s@));
                }
                Reply::success(payload)
            } else {
                Reply::failure(StatusWord::SecurityStatusNotSatisfied)
            }
        },
        None => Reply::failure(StatusWord::SecurityStatusNotSatisfied),
    }
}

} // verus!
