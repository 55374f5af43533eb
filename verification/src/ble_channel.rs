//! Write dispatch in front of the generic attribute server.
//!
//! Every message on the attribute channel passes through
//! [`RomiAttrServer::process_message`]. Write requests and write commands
//! to the writable characteristic are handled here and update its backing
//! state; every other message is left to the generic server.

use crate::ble_service::{is_writable_handle, RomiServiceAttrs, LED_CHAR_VALUE_HANDLE};
use crate::wire::spec_u16_le;
use vstd::prelude::*;

verus! {

/// Opcode of an error response.
pub const OPCODE_ERROR_RSP: u8 = 0x01;

/// Opcode of a write request, which is answered by a write response.
pub const OPCODE_WRITE_REQ: u8 = 0x12;

/// Opcode of a write response.
pub const OPCODE_WRITE_RSP: u8 = 0x13;

/// Opcode of a write command, which is not answered.
pub const OPCODE_WRITE_COMMAND: u8 = 0x52;

/// Error code of a message that is no well-formed protocol data unit.
pub const ERROR_INVALID_PDU: u8 = 0x04;

/// The handle that stands for no attribute.
pub const NULL_HANDLE: u16 = 0;

/// The error of rubble's parsers. Nothing is known of a value of it.
#[verifier::external_type_specification]
#[verifier::external_body]
pub struct ExRubbleError(rubble::Error);

/// What the dispatcher reads of a parsed protocol data unit.
#[derive(Debug, PartialEq, Eq)]
pub enum ParsedPdu {
    WriteReq { handle: u16, value: Vec<u8> },
    WriteCommand { handle: u16, value: Vec<u8> },
    /// Any other protocol data unit.
    Other,
}

/// A [`ParsedPdu`] as a mathematical value.
pub enum PduModel {
    WriteReq { handle: u16, value: Seq<u8> },
    WriteCommand { handle: u16, value: Seq<u8> },
    Other,
}

impl View for ParsedPdu {
    type V = PduModel;

    open spec fn view(&self) -> PduModel {
        match self {
            ParsedPdu::WriteReq { handle, value } => PduModel::WriteReq {
                handle: *handle,
                value: value@,
            },
            ParsedPdu::WriteCommand { handle, value } => PduModel::WriteCommand {
                handle: *handle,
                value: value@,
            },
            ParsedPdu::Other => PduModel::Other,
        }
    }
}

/// What is to be done with a message once the dispatcher has seen it.
#[derive(Clone, Copy, Debug, PartialEq, Eq, Structural)]
pub enum Reply {
    /// The message is not for this server, being no write or a write to a
    /// handle that is not its own: hand it unchanged to the generic server
    /// and return what that returns.
    Forward,
    /// A write command to the server's own handle was handled: nothing is
    /// sent.
    Nothing,
    /// A write request to the server's own handle was handled: send a write
    /// response.
    WriteRsp,
    /// The write was malformed: send an error response with these fields.
    ErrorRsp { opcode: u8, handle: u16, error_code: u8 },
}

/// Whether `opcode` is that of a write request or of a write command.
pub open spec fn is_write_opcode(opcode: u8) -> bool {
    opcode == OPCODE_WRITE_REQ || opcode == OPCODE_WRITE_COMMAND
}

/// Whether `message` starts with the opcode of a write.
pub open spec fn is_write(message: Seq<u8>) -> bool {
    message.len() >= 1 && is_write_opcode(message[0])
}

/// A write message as a protocol data unit: the opcode, the handle in two
/// little-endian bytes, and the value in the bytes that follow.
pub open spec fn write_pdu(message: Seq<u8>) -> PduModel
    recommends
        is_write(message),
        message.len() >= 3,
{
    if message[0] == OPCODE_WRITE_REQ {
        PduModel::WriteReq { handle: spec_u16_le(message[1], message[2]), value: message.skip(3) }
    } else {
        PduModel::WriteCommand {
            handle: spec_u16_le(message[1], message[2]),
            value: message.skip(3),
        }
    }
}

/// The backing state after `value` is written to it: as many bytes as both
/// hold are copied from the front of `value`, the rest of the state stays.
pub open spec fn written(state: Seq<u8>, value: Seq<u8>) -> Seq<u8> {
    Seq::new(
        state.len(),
        |i: int|
            if i < value.len() {
                value[i]
            } else {
                state[i]
            },
    )
}

/// Whether `pdu` is a write to the server's own handle, that of the
/// characteristic value.
pub open spec fn is_own_write(pdu: PduModel) -> bool {
    match pdu {
        PduModel::WriteReq { handle, .. } => is_writable_handle(handle),
        PduModel::WriteCommand { handle, .. } => is_writable_handle(handle),
        PduModel::Other => false,
    }
}

/// The backing state after `pdu` is handled: a write to the server's own
/// handle writes it, anything else leaves it.
pub open spec fn state_after(state: Seq<u8>, pdu: PduModel) -> Seq<u8> {
    match pdu {
        PduModel::WriteReq { handle, value } => if is_writable_handle(handle) {
            written(state, value)
        } else {
            state
        },
        PduModel::WriteCommand { handle, value } => if is_writable_handle(handle) {
            written(state, value)
        } else {
            state
        },
        PduModel::Other => state,
    }
}

/// The reply to `pdu`. A write to the server's own handle is handled here:
/// a request is answered by a write response, a command by nothing. A write
/// to any other handle, and any other unit, is forwarded.
pub open spec fn reply_to(pdu: PduModel) -> Reply {
    match pdu {
        PduModel::WriteReq { handle, .. } => if is_writable_handle(handle) {
            Reply::WriteRsp
        } else {
            Reply::Forward
        },
        PduModel::WriteCommand { handle, .. } => if is_writable_handle(handle) {
            Reply::Nothing
        } else {
            Reply::Forward
        },
        PduModel::Other => Reply::Forward,
    }
}

/// The backing state after `message` is dispatched.
pub open spec fn state_after_message(state: Seq<u8>, message: Seq<u8>) -> Seq<u8> {
    if is_write(message) && message.len() >= 3 {
        state_after(state, write_pdu(message))
    } else {
        state
    }
}

/// The reply to `message`. A write too short to hold a handle is answered
/// by an error response that names its opcode and no attribute.
pub open spec fn reply_to_message(message: Seq<u8>) -> Reply {
    if !is_write(message) {
        Reply::Forward
    } else if message.len() >= 3 {
        reply_to(write_pdu(message))
    } else {
        Reply::ErrorRsp {
            opcode: message[0],
            handle: NULL_HANDLE,
            error_code: ERROR_INVALID_PDU,
        }
    }
}

/// Reads an attribute handle from the front of `bytes` with rubble's
/// `Handle::from_bytes`, and gives its number by `Handle::as_u16`. The
/// handle is read from two bytes in little-endian order; the call fails
/// exactly when `bytes` holds fewer than two.
#[verifier::external_body]
fn read_handle(bytes: &[u8]) -> (r: Result<u16, rubble::Error>)
    ensures
        r.is_ok() <==> bytes.len() >= 2,
        r.is_ok() ==> r.unwrap() == spec_u16_le(bytes[0], bytes[1]),
{
    let mut reader = rubble::bytes::ByteReader::new(bytes);
    let handle = <rubble::att::Handle as rubble::bytes::FromBytes>::from_bytes(&mut reader)?;
    Ok(handle.as_u16())
}

/// Parses a write request or a write command: the opcode, then the handle,
/// which the stack's own reader of handles reads, then the value. The parse
/// fails for a message that starts with no opcode of a write, and for one
/// too short to hold a handle.
pub fn parse_write(message: &[u8]) -> (r: Option<ParsedPdu>)
    ensures
        r.is_some() <==> is_write(message@) && message.len() >= 3,
        r.is_some() ==> r.unwrap()@ == write_pdu(message@),
{
    if message.len() == 0 {
        return None;
    }
    let opcode = message[0];
    if opcode != OPCODE_WRITE_REQ && opcode != OPCODE_WRITE_COMMAND {
        return None;
    }
    let rest = vstd::slice::slice_subrange(message, 1, message.len());
    match read_handle(rest) {
        Ok(handle) => {
            let tail = vstd::slice::slice_subrange(message, 3, message.len());
            let mut value: Vec<u8> = Vec::new();
            value.extend_from_slice(tail);
            assert(value@ =~= message@.skip(3));
            if opcode == OPCODE_WRITE_REQ {
                Some(ParsedPdu::WriteReq { handle, value })
            } else {
                Some(ParsedPdu::WriteCommand { handle, value })
            }
        },
        Err(_) => None,
    }
}

/// The attribute server of the robot: the attribute table with its backing
/// state, and the handling of writes to it.
pub struct RomiAttrServer {
    attrs: RomiServiceAttrs,
}

impl View for RomiAttrServer {
    type V = Seq<u8>;

    /// The backing state.
    closed spec fn view(&self) -> Seq<u8> {
        self.attrs@
    }
}

impl RomiAttrServer {
    /// A server over a table at its start-up state.
    pub fn new() -> (server: Self)
        ensures
            server@ == crate::ble_service::initial_state(),
    {
        RomiAttrServer { attrs: RomiServiceAttrs::new() }
    }

    /// The attribute table, for reads.
    pub fn attrs(&self) -> (attrs: &RomiServiceAttrs)
        ensures
            attrs@ == self@,
    {
        &self.attrs
    }

    /// Handles one parsed protocol data unit.
    ///
    /// A write to the characteristic value copies the value into the
    /// backing state; a request is then answered by a write response, a
    /// command by nothing. A write to any other handle, and any other
    /// unit, changes nothing and is left to the generic server.
    pub fn process_request(&mut self, pdu: &ParsedPdu) -> (reply: Reply)
        ensures
            final(self)@ == state_after(old(self)@, pdu@),
            reply == reply_to(pdu@),
            reply == Reply::Forward <==> !is_own_write(pdu@),
            reply == Reply::Forward ==> final(self)@ == old(self)@,
    {
        match pdu {
            ParsedPdu::WriteReq { handle, value } => {
                if *handle == LED_CHAR_VALUE_HANDLE {
                    self.write_state(value.as_slice());
                    Reply::WriteRsp
                } else {
                    Reply::Forward
                }
            },
            ParsedPdu::WriteCommand { handle, value } => {
                if *handle == LED_CHAR_VALUE_HANDLE {
                    self.write_state(value.as_slice());
                    Reply::Nothing
                } else {
                    Reply::Forward
                }
            },
            ParsedPdu::Other => Reply::Forward,
        }
    }

    fn write_state(&mut self, value: &[u8])
        ensures
            final(self)@ == written(old(self)@, value@),
    {
        let state = self.attrs.state();
        let b0 = if value.len() > 0 {
            value[0]
        } else {
            state[0]
        };
        let b1 = if value.len() > 1 {
            value[1]
        } else {
            state[1]
        };
        let next: [u8; 2] = [b0, b1];
        self.attrs.update_data(&next);
        assert(next@ =~= written(old(self)@, value@));
    }

    /// Dispatches one message of the attribute channel.
    ///
    /// A write request or a write command to the characteristic value is
    /// handled here, see [`Self::process_request`]. A message that starts
    /// with the opcode of a write but is too short to hold a handle is
    /// answered by an error response. Every other message is to be
    /// forwarded: a write to any other handle, a message of any other
    /// opcode, and the empty message. Whatever is forwarded or answered by
    /// an error leaves the backing state as it is.
    pub fn process_message(&mut self, message: &[u8]) -> (reply: Reply)
        ensures
            final(self)@ == state_after_message(old(self)@, message@),
            reply == reply_to_message(message@),
            !is_write(message@) ==> reply == Reply::Forward,
            is_write(message@) && message.len() >= 3 ==> (reply == Reply::Forward <==> spec_u16_le(
                message[1],
                message[2],
            ) != LED_CHAR_VALUE_HANDLE),
            is_write(message@) && message.len() < 3 ==> reply is ErrorRsp,
            reply == Reply::Forward || reply is ErrorRsp ==> final(self)@ == old(self)@,
    {
        if message.len() == 0 {
            return Reply::Forward;
        }
        let opcode = message[0];
        if opcode != OPCODE_WRITE_REQ && opcode != OPCODE_WRITE_COMMAND {
            return Reply::Forward;
        }
        match parse_write(message) {
            Some(pdu) => self.process_request(&pdu),
            None => Reply::ErrorRsp {
                opcode,
                handle: NULL_HANDLE,
                error_code: ERROR_INVALID_PDU,
            },
        }
    }
}

/// Holds the robot's attribute server for the channel map of a
/// connection, and hands it out through [`Self::att`].
pub struct RomiChannelMap {
    actual_server: RomiAttrServer,
}

impl View for RomiChannelMap {
    type V = Seq<u8>;

    /// The backing state.
    closed spec fn view(&self) -> Seq<u8> {
        self.actual_server@
    }
}

impl RomiChannelMap {
    pub fn new() -> (map: Self)
        ensures
            map@ == crate::ble_service::initial_state(),
    {
        RomiChannelMap { actual_server: RomiAttrServer::new() }
    }

    /// The attribute server, to dispatch a message.
    pub fn att(&mut self) -> (server: &mut RomiAttrServer)
        ensures
            server@ == old(self)@,
            final(self)@ == final(server)@,
    {
        &mut self.actual_server
    }
}

impl Default for RomiChannelMap {
    fn default() -> (map: Self)
        ensures
            map@ == crate::ble_service::initial_state(),
    {
        Self::new()
    }
}

} // verus!
