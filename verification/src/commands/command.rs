use byteorder::{ByteOrder, LittleEndian, WriteBytesExt};
use vstd::prelude::*;
use vstd::slice::slice_subrange;
use crate::json::{from_text, read_as, to_text, written, Payload};
use crate::server::server_error::{LogicError, ServerError};

verus! {

/// The content type that stands for JSON in a frame.
pub const CONTENT_TYPE_JSON: i32 = 1;

/// The length of the header of an answer: the payload's length and its
/// content type.
pub const RESPONSE_HEADER_LENGTH: usize = 8;

/// The number that 32 bits stand for when they are read without a sign.
pub open spec fn unsigned(n: i32) -> int {
    if n >= 0 {
        n as int
    } else {
        n + 0x1_0000_0000
    }
}

/// The four bytes of a number, lowest first.
pub open spec fn le_bytes(n: i32) -> Seq<u8> {
    seq![
        (unsigned(n) % 256) as u8,
        (unsigned(n) / 0x100 % 256) as u8,
        (unsigned(n) / 0x1_0000 % 256) as u8,
        (unsigned(n) / 0x100_0000 % 256) as u8,
    ]
}

/// The number that the first four bytes stand for, lowest first.
pub open spec fn le_value(bytes: Seq<u8>) -> i32 {
    let u = bytes[0] + bytes[1] * 0x100 + bytes[2] * 0x1_0000 + bytes[3] * 0x100_0000;
    if u < 0x8000_0000 {
        u as i32
    } else {
        (u - 0x1_0000_0000) as i32
    }
}

/// Reading the bytes of a number gives that number.
pub proof fn lemma_le_round_trip(n: i32)
    ensures
        le_bytes(n).len() == 4,
        le_value(le_bytes(n)) == n,
{
    let u = unsigned(n);
    assert(u == u % 256 + (u / 0x100 % 256) * 0x100 + (u / 0x1_0000 % 256) * 0x1_0000 + (u
        / 0x100_0000 % 256) * 0x100_0000) by (nonlinear_arith)
        requires
            0 <= u < 0x1_0000_0000,
    ;
}

/// `WriteBytesExt::write_i32::<LittleEndian>` of `byteorder` on a vector:
/// the four bytes of the number, lowest first, are added at the end.
#[verifier::external_body]
fn write_i32_le(buffer: &mut Vec<u8>, n: i32)
    ensures
        final(buffer)@ == old(buffer)@ + le_bytes(n),
{
    let _ = buffer.write_i32::<LittleEndian>(n);
}

/// `LittleEndian::read_i32` of `byteorder`: the number that the first four
/// bytes stand for, lowest first.
#[verifier::external_body]
fn read_i32_le(bytes: &[u8]) -> (n: i32)
    requires
        bytes@.len() >= 4,
    ensures
        n == le_value(bytes@),
{
    LittleEndian::read_i32(bytes)
}

/// Where a peer can be reached.
#[derive(Debug)]
pub struct SocketAddress {
    pub host: String,
    pub port: u16,
}

/// What a [`Command`] stands for in contracts.
pub struct CommandModel {
    pub host: Seq<char>,
    pub port: u16,
    pub method_id: Option<i32>,
    pub input: Option<Seq<u8>>,
}

/// A call of a method of a peer: where the peer is, which method, and the
/// payload.
#[derive(Debug)]
pub struct Command {
    address: SocketAddress,
    method_id: Option<i32>,
    input: Option<Vec<u8>>,
}

impl View for Command {
    type V = CommandModel;

    closed spec fn view(&self) -> CommandModel {
        CommandModel {
            host: self.address.host@,
            port: self.address.port,
            method_id: self.method_id,
            input: match self.input {
                Some(bytes) => Some(bytes@),
                None => None,
            },
        }
    }
}

/// The frame of a call: method, length of the payload, content type, each
/// in four bytes, and the payload.
pub open spec fn request_frame(method_id: i32, payload: Seq<u8>) -> Seq<u8> {
    le_bytes(method_id) + le_bytes(payload.len() as i32) + le_bytes(CONTENT_TYPE_JSON) + payload
}

/// What the header of an answer says of the payload's length.
pub open spec fn response_size_of(header: Seq<u8>) -> Result<usize, ServerError> {
    if header.len() < 8 {
        Err(ServerError::Io)
    } else if le_value(header.skip(4)) != CONTENT_TYPE_JSON {
        Err(ServerError::Logic(LogicError::CommandUnsupportedContentType))
    } else if le_value(header) < 0 {
        Err(ServerError::Io)
    } else {
        Ok(le_value(header) as usize)
    }
}

/// A frame reads back as what it was made of: the method, the length of the
/// payload, the content type of JSON, and the payload.
pub proof fn lemma_frame_reads_back(method_id: i32, payload: Seq<u8>)
    requires
        payload.len() <= i32::MAX,
    ensures
        request_frame(method_id, payload).len() == 12 + payload.len(),
        le_value(request_frame(method_id, payload)) == method_id,
        le_value(request_frame(method_id, payload).skip(4)) == payload.len(),
        le_value(request_frame(method_id, payload).skip(8)) == CONTENT_TYPE_JSON,
        request_frame(method_id, payload).skip(12) == payload,
{
    let frame = request_frame(method_id, payload);
    lemma_le_round_trip(method_id);
    lemma_le_round_trip(payload.len() as i32);
    lemma_le_round_trip(CONTENT_TYPE_JSON);
    assert(frame.len() == 12 + payload.len());
    assert forall|i: int| 0 <= i < 4 implies frame[i] == le_bytes(method_id)[i] && frame.skip(4)[i]
        == le_bytes(payload.len() as i32)[i] && frame.skip(8)[i] == le_bytes(
        CONTENT_TYPE_JSON,
    )[i] by {
    }
    assert(frame.skip(12) =~= payload);
}

/// The header of an answer that states a length and the content type of
/// JSON gives that length.
pub proof fn lemma_response_header_reads_back(size: i32)
    requires
        size >= 0,
    ensures
        response_size_of(le_bytes(size) + le_bytes(CONTENT_TYPE_JSON)) == Ok::<usize, ServerError>(
            size as usize,
        ),
{
    let header = le_bytes(size) + le_bytes(CONTENT_TYPE_JSON);
    lemma_le_round_trip(size);
    lemma_le_round_trip(CONTENT_TYPE_JSON);
    assert forall|i: int| 0 <= i < 4 implies header[i] == le_bytes(size)[i] && header.skip(4)[i]
        == le_bytes(CONTENT_TYPE_JSON)[i] by {
    }
}

impl Command {
    /// A call to the first of the addresses that a name stands for.
    pub fn new(mut resolved: Vec<SocketAddress>) -> (command: Result<Command, ServerError>)
        ensures
            resolved.len() == 0 ==> command == Err::<Command, ServerError>(
                ServerError::Logic(LogicError::CommandSocketAddressNotFound),
            ),
            resolved.len() > 0 ==> command is Ok && command->Ok_0@ == (CommandModel {
                host: resolved[0].host@,
                port: resolved[0].port,
                method_id: None,
                input: None,
            }),
    {
        if resolved.len() == 0 {
            return Err(ServerError::Logic(LogicError::CommandSocketAddressNotFound));
        }
        let first = resolved.swap_remove(0);
        Ok(Command { address: first, method_id: None, input: None })
    }

    /// This call with a record as its payload.
    pub fn input<I: Payload>(self, dto: &I) -> (command: Result<Command, ServerError>)
        ensures
            match written::<I>(dto@) {
                Some(bytes) => command is Ok && command->Ok_0@ == (CommandModel {
                    input: Some(bytes),
                    ..self@
                }),
                None => command == Err::<Command, ServerError>(ServerError::Json),
            },
    {
        match to_text(dto) {
            Ok(bytes) => Ok(self.input_bytes(bytes)),
            Err(error) => Err(error),
        }
    }

    /// This call with the payload given.
    pub fn input_bytes(self, bytes: Vec<u8>) -> (command: Command)
        ensures
            command@ == (CommandModel { input: Some(bytes@), ..self@ }),
    {
        let mut command = self;
        command.input = Some(bytes);
        command
    }

    /// This call for the method of this number.
    pub fn method_id(self, id: i32) -> (command: Command)
        ensures
            command@ == (CommandModel { method_id: Some(id), ..self@ }),
    {
        let mut command = self;
        command.method_id = Some(id);
        command
    }

    pub fn address(&self) -> (address: &SocketAddress)
        ensures
            address.host@ == self@.host,
            address.port == self@.port,
    {
        &self.address
    }

    /// The bytes to send for this call.
    pub fn frame(&self) -> (frame: Result<Vec<u8>, ServerError>)
        ensures
            self@.input is None ==> frame == Err::<Vec<u8>, ServerError>(
                ServerError::Logic(LogicError::CommandInputNotSet),
            ),
            self@.input is Some && self@.method_id is None ==> frame == Err::<Vec<u8>, ServerError>(
                ServerError::Logic(LogicError::CommandMethodIdNotSet),
            ),
            self@.input is Some && self@.method_id is Some && self@.input->Some_0.len()
                > i32::MAX ==> frame == Err::<Vec<u8>, ServerError>(ServerError::Io),
            self@.input is Some && self@.method_id is Some && self@.input->Some_0.len()
                <= i32::MAX ==> frame is Ok && frame->Ok_0@ == request_frame(
                self@.method_id->Some_0,
                self@.input->Some_0,
            ),
    {
        let input = match &self.input {
            Some(input) => input,
            None => {
                return Err(ServerError::Logic(LogicError::CommandInputNotSet));
            },
        };
        let method_id = match self.method_id {
            Some(id) => id,
            None => {
                return Err(ServerError::Logic(LogicError::CommandMethodIdNotSet));
            },
        };
        if input.len() > 0x7fff_ffff {
            return Err(ServerError::Io);
        }
        let mut frame: Vec<u8> = Vec::new();
        write_i32_le(&mut frame, method_id);
        write_i32_le(&mut frame, input.len() as i32);
        write_i32_le(&mut frame, CONTENT_TYPE_JSON);
        let mut i: usize = 0;
        let ghost head = frame@;
        while i < input.len()
            invariant
                i <= input.len(),
                frame@ == head + input@.take(i as int),
            decreases input.len() - i,
        {
            frame.push(input[i]);
            assert(frame@ =~= head + input@.take(i + 1));
            i += 1;
        }
        assert(input@.take(i as int) =~= input@);
        assert(frame@ =~= request_frame(method_id, input@));
        Ok(frame)
    }

    /// How long the payload of an answer is, by the answer's header.
    pub fn response_size(header: &[u8]) -> (size: Result<usize, ServerError>)
        ensures
            size == response_size_of(header@),
    {
        if header.len() < RESPONSE_HEADER_LENGTH {
            return Err(ServerError::Io);
        }
        let size = read_i32_le(header);
        let content_type = read_i32_le(slice_subrange(header, 4, 8));
        assert(le_value(header@.subrange(4, 8)) == le_value(header@.skip(4)));
        if content_type != CONTENT_TYPE_JSON {
            return Err(ServerError::Logic(LogicError::CommandUnsupportedContentType));
        }
        if size < 0 {
            return Err(ServerError::Io);
        }
        Ok(size as usize)
    }

    /// The record that the payload of an answer stands for.
    pub fn output<O: Payload>(payload: &[u8]) -> (output: Result<O, ServerError>)
        ensures
            match output {
                Ok(record) => read_as::<O>(payload@) == Some(record@),
                Err(error) => error == ServerError::Json && read_as::<O>(payload@) is None,
            },
    {
        from_text::<O>(payload)
    }
}

} // verus!
