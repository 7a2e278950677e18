use vstd::prelude::*;
use vstd::slice::slice_subrange;

use crate::auth::{
    process_general_auth, spec_ga_accepts, spec_ga_point, spec_ga_reject_status, GeneralAuthStep,
};
use crate::comm::{spec_failure_reply, Command, Reply};
use crate::data_object::{spec_resolve_object, DataObjectIdentifier};
use crate::data_response::{
    spec_send_cursor, spec_send_payload, spec_send_status, spec_set_contents, DataResponseBuffer,
};
use crate::status::{spec_status_value, StatusWord};

verus! {

/// The application identifier of the card application (the right-truncated
/// PIV AID).
pub open spec fn spec_piv_aid() -> Seq<u8> {
    seq![0xA0u8, 0x00u8, 0x00u8, 0x03u8, 0x08u8, 0x00u8, 0x00u8, 0x10u8, 0x00u8]
}

/// The fixed file-control-information payload returned on selection.
pub open spec fn spec_fci() -> Seq<u8> {
    seq![
        0x61u8,
        0x11u8,
        0x4Fu8,
        0x06u8,
        0x00u8,
        0x00u8,
        0x10u8,
        0x00u8,
        0x01u8,
        0x00u8,
        0x79u8,
        0x07u8,
        0x4Fu8,
        0x05u8,
    ] + spec_piv_aid()
}

fn piv_aid() -> (r: Vec<u8>)
    ensures
        r@ == spec_piv_aid(),
{
    let r: Vec<u8> = vec![0xA0, 0x00, 0x00, 0x03, 0x08, 0x00, 0x00, 0x10, 0x00];
    proof {
        assert(r@ =~= spec_piv_aid());
    }
    r
}

/// The reply a select command produces: both parameter bytes must match,
/// the payload must equal the application identifier byte for byte, and
/// success carries the fixed file-control information.
pub open spec fn spec_select_reply(cmd: Command, r: Reply) -> bool {
    if cmd.p1 != 0x04 || cmd.p2 != 0x00 {
        spec_failure_reply(r, StatusWord::IncorrectP1P2)
    } else {
        match cmd.data {
            Err(status) => r.payload@.len() == 0 && r.status == status,
            Ok(d) => if d@ == spec_piv_aid() {
                r.status == spec_status_value(StatusWord::Success) && r.payload@ == spec_fci()
            } else {
                spec_failure_reply(r, StatusWord::WrongData)
            },
        }
    }
}

/// Handles card selection.
pub fn process_select_card(cmd: &Command) -> (r: Reply)
    ensures
        spec_select_reply(*cmd, r),
{
    if let Err(e) = cmd.expect_parameters(0x04, 0x00) {
        return Reply::from_error(e);
    }
    let aid = piv_aid();
    if let Err(e) = cmd.expect_data(aid.as_slice()) {
        return Reply::from_error(e);
    }
    let payload: Vec<u8> = vec![
        0x61,
        0x11,
        0x4F,
        0x06,
        0x00,
        0x00,
        0x10,
        0x00,
        0x01,
        0x00,
        0x79,
        0x07,
        0x4F,
        0x05,
        0xA0,
        0x00,
        0x00,
        0x03,
        0x08,
        0x00,
        0x00,
        0x10,
        0x00,
    ];
    proof {
        assert(payload@ =~= spec_fci());
    }
    Reply::success(payload)
}

/// The reply a continue-response command produces: with matching
/// parameters it is exactly one send step of the continuation buffer;
/// on an exhausted buffer that step is a success with no bytes.
pub open spec fn spec_continue_reply(
    cmd: Command,
    pre: DataResponseBuffer,
    post: DataResponseBuffer,
    r: Reply,
) -> bool {
    if cmd.p1 != 0x00 || cmd.p2 != 0x00 {
        spec_failure_reply(r, StatusWord::IncorrectP1P2) && post == pre
    } else {
        &&& post.bytes() == pre.bytes()
        &&& post.cursor() == spec_send_cursor(pre.bytes(), pre.cursor())
        &&& r.payload@ == spec_send_payload(pre.bytes(), pre.cursor())
        &&& r.status == spec_send_status(pre.bytes(), pre.cursor())
    }
}

/// Handles a request to continue a split response.
pub fn process_continue_response(cmd: &Command, buffer: &mut DataResponseBuffer) -> (r: Reply)
    requires
        old(buffer).wf(),
    ensures
        final(buffer).wf(),
        spec_continue_reply(*cmd, *old(buffer), *final(buffer), r),
{
    if let Err(e) = cmd.expect_parameters(0x00, 0x00) {
        return Reply::from_error(e);
    }
    buffer.send()
}

/// A data-retrieval payload is well-formed when it opens with the
/// object-path tag and its length byte equals the remaining payload
/// length exactly.
pub open spec fn spec_get_data_params_ok(d: Seq<u8>) -> bool {
    d.len() >= 2 && d[0] == 0x5C && d[1] == d.len() - 2
}

/// Which failure a malformed data-retrieval payload reports: a missing or
/// wrong tag is wrong data; a mismatched length byte is wrong length.
pub open spec fn spec_get_data_params_err(d: Seq<u8>) -> StatusWord {
    if d.len() < 2 || d[0] != 0x5C {
        StatusWord::WrongData
    } else {
        StatusWord::WrongLength
    }
}

/// Checks the shape of a data-retrieval payload.
pub fn check_get_data_params(data: &[u8]) -> (r: Result<(), StatusWord>)
    ensures
        spec_get_data_params_ok(data@) ==> r == Ok::<(), StatusWord>(()),
        !spec_get_data_params_ok(data@) ==> r == Err::<(), StatusWord>(
            spec_get_data_params_err(data@),
        ),
{
    if data.len() < 2 {
        return Err(StatusWord::WrongData);
    }
    let tag = data[0];
    let len = data[1];

    // Check tag.
    if tag != 0x5C {
        return Err(StatusWord::WrongData);
    }

    // Check length.
    if len as usize != data.len() - 2 {
        return Err(StatusWord::WrongLength);
    }

    Ok(())
}

/// The reply a data-retrieval command produces, together with how it
/// leaves the continuation buffer: only the provisioned object path
/// populates the buffer and yields its first chunk; every failure leaves
/// the buffer untouched.
pub open spec fn spec_get_data_reply(
    cmd: Command,
    cert: Seq<u8>,
    pre: DataResponseBuffer,
    post: DataResponseBuffer,
    r: Reply,
) -> bool {
    if cmd.p1 != 0x3F || cmd.p2 != 0xFF {
        spec_failure_reply(r, StatusWord::IncorrectP1P2) && post == pre
    } else {
        match cmd.data {
            Err(status) => r.payload@.len() == 0 && r.status == status && post == pre,
            Ok(d) => if !spec_get_data_params_ok(d@) {
                spec_failure_reply(r, spec_get_data_params_err(d@)) && post == pre
            } else if !(spec_resolve_object(d@.skip(2)) is RetiredKeyCertificate) {
                spec_failure_reply(r, StatusWord::FileNotFound) && post == pre
            } else {
                let contents = spec_set_contents(cert);
                &&& post.bytes() == contents
                &&& post.cursor() == spec_send_cursor(contents, 0)
                &&& r.payload@ == spec_send_payload(contents, 0)
                &&& r.status == spec_send_status(contents, 0)
            },
        }
    }
}

/// Handles data retrieval: validates the payload, resolves the object
/// path, populates the continuation buffer with the object's bytes and
/// sends the first chunk.
pub fn process_get_data(cmd: &Command, cert: &[u8], buffer: &mut DataResponseBuffer) -> (r: Reply)
    requires
        old(buffer).wf(),
    ensures
        final(buffer).wf(),
        spec_get_data_reply(*cmd, cert@, *old(buffer), *final(buffer), r),
{
    if let Err(e) = cmd.expect_parameters(0x3F, 0xFF) {
        return Reply::from_error(e);
    }

    let data = match cmd.data() {
        Ok(d) => d,
        Err(e) => {
            return Reply::from_error(e);
        },
    };

    // Check params.
    if let Err(status) = check_get_data_params(data.as_slice()) {
        return Reply::failure(status);
    }

    let path = slice_subrange(data.as_slice(), 2, data.len());
    proof {
        assert(path@ =~= data@.skip(2));
    }
    match DataObjectIdentifier::from(path).handle(cert, buffer) {
        Ok(()) => buffer.send(),
        Err(status) => Reply::failure(status),
    }
}

/// The reply a serial request produces: four bytes drawn from the
/// seven-byte device serial.
pub open spec fn spec_serial_reply(cmd: Command, serial: Seq<u8>, r: Reply) -> bool {
    if cmd.p1 != 0x00 || cmd.p2 != 0x00 {
        spec_failure_reply(r, StatusWord::IncorrectP1P2)
    } else {
        r.status == spec_status_value(StatusWord::Success) && r.payload@ == seq![
            serial[0],
            serial[2],
            serial[4],
            serial[6],
        ]
    }
}

/// Handles the vendor serial request, condensing the injected device
/// serial to the four bytes the host expects.
pub fn process_get_serial(cmd: &Command, serial: &[u8; 7]) -> (r: Reply)
    ensures
        spec_serial_reply(*cmd, serial@, r),
{
    if let Err(e) = cmd.expect_parameters(0x00, 0x00) {
        return Reply::from_error(e);
    }
    let mut payload: Vec<u8> = Vec::new();
    payload.push(serial[0]);
    payload.push(serial[2]);
    payload.push(serial[4]);
    payload.push(serial[6]);
    proof {
        assert(payload@ =~= seq![serial@[0], serial@[2], serial@[4], serial@[6]]);
    }
    Reply::success(payload)
}

/// The reply a version request produces: the fixed three-byte firmware
/// version.
pub open spec fn spec_version_reply(cmd: Command, r: Reply) -> bool {
    if cmd.p1 != 0x00 || cmd.p2 != 0x00 {
        spec_failure_reply(r, StatusWord::IncorrectP1P2)
    } else {
        r.status == spec_status_value(StatusWord::Success) && r.payload@ == seq![5u8, 4u8, 0u8]
    }
}

/// Handles the vendor version request.
pub fn process_get_version(cmd: &Command) -> (r: Reply)
    ensures
        spec_version_reply(*cmd, r),
{
    if let Err(e) = cmd.expect_parameters(0x00, 0x00) {
        return Reply::from_error(e);
    }
    let payload: Vec<u8> = vec![5, 4, 0];
    proof {
        assert(payload@ =~= seq![5u8, 4u8, 0u8]);
    }
    Reply::success(payload)
}

/// What the session asks of its caller after routing one command.
pub enum Action {
    /// The command was handled completely; send this reply.
    Reply(Reply),
    /// Key agreement is required: run the crypto collaborator against the
    /// point, then send the reply `general_auth_finish` builds from the
    /// outcome.
    KeyAgreement { point: Vec<u8> },
}

/// One command session: the continuation buffer lives for the session's
/// whole life, and the device identity the handlers need is injected once
/// at construction so the engine runs on plain values.
pub struct Session {
    /// The chunked-response continuation buffer.
    pub buffer: DataResponseBuffer,
    /// The seven-byte device serial.
    pub serial: [u8; 7],
    /// The certificate provisioned in the one supported data-object slot.
    pub cert: Vec<u8>,
}

impl Session {
    /// The session is usable whenever its buffer is.
    pub open spec fn wf(&self) -> bool {
        self.buffer.wf()
    }

    /// A fresh session around an empty continuation buffer.
    pub fn new(serial: [u8; 7], cert: Vec<u8>) -> (s: Session)
        ensures
            s.wf(),
            s.serial == serial,
            s.cert == cert,
            s.buffer.bytes() == Seq::<u8>::empty(),
            s.buffer.cursor() == 0,
    {
        Session { buffer: DataResponseBuffer::new(), serial, cert }
    }

    /// Routes one received command to its handler through the fixed
    /// command table; an unrecognized code is not supported.  Every
    /// outcome carries exactly one status word, and a reply whose status
    /// reports neither success nor pending data carries no payload.
    pub fn handle_command(&mut self, cmd: &Command) -> (a: Action)
        requires
            old(self).wf(),
        ensures
            final(self).wf(),
            final(self).serial == old(self).serial,
            final(self).cert == old(self).cert,
            cmd.code == 0xA4 ==> (a matches Action::Reply(r) && spec_select_reply(*cmd, r)
                && final(self).buffer == old(self).buffer),
            cmd.code == 0x87 && !spec_ga_accepts(*cmd) ==> (a matches Action::Reply(r)
                && spec_failure_reply(r, spec_ga_reject_status(*cmd)) && final(self).buffer == old(
                self,
            ).buffer),
            cmd.code == 0x87 && spec_ga_accepts(*cmd) ==> (a matches Action::KeyAgreement { point }
                && (cmd.data matches Ok(d) && point@ == spec_ga_point(d@)) && final(self).buffer
                == old(self).buffer),
            cmd.code == 0xC0 ==> (a matches Action::Reply(r) && spec_continue_reply(
                *cmd,
                old(self).buffer,
                final(self).buffer,
                r,
            )),
            cmd.code == 0xCB ==> (a matches Action::Reply(r) && spec_get_data_reply(
                *cmd,
                old(self).cert@,
                old(self).buffer,
                final(self).buffer,
                r,
            )),
            cmd.code == 0xF8 ==> (a matches Action::Reply(r) && spec_serial_reply(
                *cmd,
                old(self).serial@,
                r,
            ) && final(self).buffer == old(self).buffer),
            cmd.code == 0xFD ==> (a matches Action::Reply(r) && spec_version_reply(*cmd, r)
                && final(self).buffer == old(self).buffer),
            !(cmd.code == 0xA4 || cmd.code == 0x87 || cmd.code == 0xC0 || cmd.code == 0xCB
                || cmd.code == 0xF8 || cmd.code == 0xFD) ==> (a matches Action::Reply(r)
                && spec_failure_reply(r, StatusWord::FuncNotSupported) && final(self).buffer == old(
                self,
            ).buffer),
            a matches Action::Reply(r) ==> ((r.status == 0x9000 || (0x6100 <= r.status
                <= 0x61FF)) || r.payload@.len() == 0),
    {
        match cmd.code {
            0xA4 => Action::Reply(process_select_card(cmd)),
            0x87 => match process_general_auth(cmd) {
                GeneralAuthStep::KeyAgreement { point } => Action::KeyAgreement { point },
                GeneralAuthStep::Reject(r) => Action::Reply(r),
            },
            0xC0 => Action::Reply(process_continue_response(cmd, &mut self.buffer)),
            0xCB => Action::Reply(process_get_data(cmd, self.cert.as_slice(), &mut self.buffer)),
            0xF8 => Action::Reply(process_get_serial(cmd, &self.serial)),
            0xFD => Action::Reply(process_get_version(cmd)),
            _ => Action::Reply(Reply::failure(StatusWord::FuncNotSupported)),
        }
    }
}

} // verus!
