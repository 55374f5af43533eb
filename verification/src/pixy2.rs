//! Packet protocol of the block-detection camera.
//!
//! A request is a packet without checksum: a sync word, a type byte, a
//! length byte and the payload. A response comes with or without a 16-bit
//! checksum, which is the sum of its payload bytes.

use crate::wire::{i8_from_byte, spec_i8, spec_u16_le, u16_le};
use vstd::prelude::*;

verus! {

/// Sync word of a packet that carries a checksum.
pub const CHECKSUM_SYNC: u16 = 0xc1af;

/// Sync word of a packet without checksum.
pub const NO_CHECKSUM_SYNC: u16 = 0xc1ae;

/// Bytes that a request holds before its payload.
pub const SEND_HEADER_SIZE: usize = 4;

/// Bytes of one block in a response.
pub const BLOCK_SIZE: usize = 14;

/// Most blocks that one response can hold.
pub const MAX_BLOCKS: usize = 18;

pub const TYPE_REQUEST_RESOLUTION: u8 = 0x0c;

pub const TYPE_RESPONSE_RESOLUTION: u8 = 0x0d;

pub const TYPE_REQUEST_VERSION: u8 = 0x0e;

pub const TYPE_RESPONSE_VERSION: u8 = 0x0f;

pub const TYPE_RESPONSE_RESULT: u8 = 0x01;

pub const TYPE_RESPONSE_ERROR: u8 = 0x03;

pub const CCC_REQUEST_BLOCKS: u8 = 0x20;

pub const CCC_RESPONSE_BLOCKS: u8 = 0x21;

/// A set of colour signatures, one bit each, and a bit for colour codes.
#[derive(Clone, Copy, Debug, PartialEq, Eq, Structural)]
pub struct SigMap {
    pub bits: u8,
}

impl SigMap {
    pub const SIG1: u8 = 1;

    pub const SIG2: u8 = 2;

    pub const SIG3: u8 = 4;

    pub const SIG4: u8 = 8;

    pub const SIG5: u8 = 16;

    pub const SIG6: u8 = 32;

    pub const SIG7: u8 = 64;

    pub const COLOR_CODES: u8 = 128;

    pub const ALL: u8 = 0xff;

    /// The set of all signatures and colour codes.
    pub fn all() -> (m: Self)
        ensures
            m.bits == Self::ALL,
    {
        SigMap { bits: Self::ALL }
    }

    /// The set whose members are the bits set in `bits`.
    pub fn from_bits(bits: u8) -> (m: Self)
        ensures
            m.bits == bits,
    {
        SigMap { bits }
    }

    pub fn bits(&self) -> (b: u8)
        ensures
            b == self.bits,
    {
        self.bits
    }
}

/// A detected block of colour.
#[derive(Clone, Copy, Debug, PartialEq, Eq, Structural)]
pub struct Block {
    pub signature: u16,
    pub x: u16,
    pub y: u16,
    pub width: u16,
    pub height: u16,
    pub angle: u16,
    pub index: u8,
    pub age: u8,
}

impl Block {
    /// The block that fourteen bytes of a response stand for: six
    /// little-endian 16-bit fields, then the index and the age.
    pub open spec fn spec_from(bytes: Seq<u8>) -> Block
        recommends
            bytes.len() == BLOCK_SIZE,
    {
        Block {
            signature: spec_u16_le(bytes[0], bytes[1]),
            x: spec_u16_le(bytes[2], bytes[3]),
            y: spec_u16_le(bytes[4], bytes[5]),
            width: spec_u16_le(bytes[6], bytes[7]),
            height: spec_u16_le(bytes[8], bytes[9]),
            angle: spec_u16_le(bytes[10], bytes[11]),
            index: bytes[12],
            age: bytes[13],
        }
    }

    pub fn from(bytes: &[u8; 14]) -> (b: Block)
        ensures
            b == Self::spec_from(bytes@),
    {
        Block {
            signature: u16_le(bytes[0], bytes[1]),
            x: u16_le(bytes[2], bytes[3]),
            y: u16_le(bytes[4], bytes[5]),
            width: u16_le(bytes[6], bytes[7]),
            height: u16_le(bytes[8], bytes[9]),
            angle: u16_le(bytes[10], bytes[11]),
            index: bytes[12],
            age: bytes[13],
        }
    }
}

/// What the camera or the exchange with it reports as failed.
#[derive(Clone, Copy, Debug, PartialEq, Eq, Structural)]
pub enum Pixy2Error {
    Error,
    Busy,
    ChecksumError,
    Timeout,
    ButtonOverride,
    ProgChanging,
}

impl Pixy2Error {
    /// The code by which the camera reports the error.
    pub open spec fn spec_to_code(self) -> i8 {
        match self {
            Pixy2Error::Error => -1i8,
            Pixy2Error::Busy => -2i8,
            Pixy2Error::ChecksumError => -3i8,
            Pixy2Error::Timeout => -4i8,
            Pixy2Error::ButtonOverride => -5i8,
            Pixy2Error::ProgChanging => -6i8,
        }
    }

    /// The error that a code reports, if it reports one.
    pub open spec fn spec_from_code(code: i8) -> Option<Pixy2Error> {
        if code == -1i8 {
            Some(Pixy2Error::Error)
        } else if code == -2i8 {
            Some(Pixy2Error::Busy)
        } else if code == -3i8 {
            Some(Pixy2Error::ChecksumError)
        } else if code == -4i8 {
            Some(Pixy2Error::Timeout)
        } else if code == -5i8 {
            Some(Pixy2Error::ButtonOverride)
        } else if code == -6i8 {
            Some(Pixy2Error::ProgChanging)
        } else {
            None
        }
    }

    pub fn to_code(&self) -> (code: i8)
        ensures
            code == self.spec_to_code(),
            -6 <= code <= -1,
    {
        match self {
            Pixy2Error::Error => -1,
            Pixy2Error::Busy => -2,
            Pixy2Error::ChecksumError => -3,
            Pixy2Error::Timeout => -4,
            Pixy2Error::ButtonOverride => -5,
            Pixy2Error::ProgChanging => -6,
        }
    }

    /// Checked conversion from a code of the camera: `None` for a code
    /// that reports no error.
    pub fn from_code(code: i8) -> (e: Option<Pixy2Error>)
        ensures
            e == Self::spec_from_code(code),
            e.is_some() <==> -6 <= code <= -1,
    {
        match code {
            -1 => Some(Pixy2Error::Error),
            -2 => Some(Pixy2Error::Busy),
            -3 => Some(Pixy2Error::ChecksumError),
            -4 => Some(Pixy2Error::Timeout),
            -5 => Some(Pixy2Error::ButtonOverride),
            -6 => Some(Pixy2Error::ProgChanging),
            _ => None,
        }
    }

    /// The code by which the camera reports success.
    pub fn ok_code() -> (code: i8)
        ensures
            code == 0,
    {
        0
    }
}

/// Hardware and firmware version of the camera.
#[derive(Clone, Copy, Debug, PartialEq, Eq)]
pub struct Version {
    pub hardware: u16,
    pub firmware_major: u8,
    pub firmware_minor: u8,
    pub firmware_build: u16,
    pub firmware_type: [u8; 10],
}

impl Version {
    /// Whether `v` is the version that sixteen bytes of a response stand
    /// for: the hardware version in two little-endian bytes, the major and
    /// the minor firmware version, the build in two little-endian bytes,
    /// and ten bytes that name the firmware type.
    pub open spec fn is_from(v: Version, bytes: Seq<u8>) -> bool
        recommends
            bytes.len() == 16,
    {
        &&& v.hardware == spec_u16_le(bytes[0], bytes[1])
        &&& v.firmware_major == bytes[2]
        &&& v.firmware_minor == bytes[3]
        &&& v.firmware_build == spec_u16_le(bytes[4], bytes[5])
        &&& v.firmware_type@ == bytes.subrange(6, 16)
    }

    pub fn from(bytes: &[u8; 16]) -> (v: Version)
        ensures
            Self::is_from(v, bytes@),
    {
        let firmware_type: [u8; 10] = [
            bytes[6],
            bytes[7],
            bytes[8],
            bytes[9],
            bytes[10],
            bytes[11],
            bytes[12],
            bytes[13],
            bytes[14],
            bytes[15],
        ];
        assert(firmware_type@ =~= bytes@.subrange(6, 16));
        Version {
            hardware: u16_le(bytes[0], bytes[1]),
            firmware_major: bytes[2],
            firmware_minor: bytes[3],
            firmware_build: u16_le(bytes[4], bytes[5]),
            firmware_type,
        }
    }
}

/// The sum of the bytes of `s`.
pub open spec fn byte_sum(s: Seq<u8>) -> nat
    decreases s.len(),
{
    if s.len() == 0 {
        0
    } else {
        byte_sum(s.drop_last()) + s.last() as nat
    }
}

/// The checksum of a payload: the sum of its bytes in 16 bits.
pub open spec fn spec_cumulative_sum(buf: Seq<u8>) -> u16 {
    (byte_sum(buf) % 0x1_0000) as u16
}

/// Computes the 16-bit cumulative sum over `buf`.
pub fn cumulative_sum(buf: &[u8]) -> (sum: u16)
    ensures
        sum == spec_cumulative_sum(buf@),
{
    let mut sum: u16 = 0;
    let mut i: usize = 0;
    while i < buf.len()
        invariant
            i <= buf.len(),
            sum == byte_sum(buf@.subrange(0, i as int)) % 0x1_0000,
        decreases buf.len() - i,
    {
        proof {
            let next = buf@.subrange(0, i + 1);
            assert(next.drop_last() =~= buf@.subrange(0, i as int));
            assert(next.last() == buf@[i as int]);
        }
        let t: u32 = sum as u32 + buf[i] as u32;
        sum = if t >= 0x1_0000 {
            (t - 0x1_0000) as u16
        } else {
            t as u16
        };
        i += 1;
    }
    assert(buf@.subrange(0, i as int) =~= buf@);
    sum
}

/// The request packet of type `kind` with payload `payload`.
pub open spec fn request_of(kind: u8, payload: Seq<u8>) -> Seq<u8>
    recommends
        payload.len() <= 255,
{
    seq![0xaeu8, 0xc1u8, kind, payload.len() as u8] + payload
}

/// Builds the request packet of type `kind` with payload `payload`.
pub fn request(kind: u8, payload: &[u8]) -> (out: Vec<u8>)
    requires
        payload.len() <= 255,
    ensures
        out@ == request_of(kind, payload@),
{
    let mut out: Vec<u8> = Vec::new();
    out.push((NO_CHECKSUM_SYNC % 256) as u8);
    out.push((NO_CHECKSUM_SYNC / 256) as u8);
    out.push(kind);
    out.push(payload.len() as u8);
    out.extend_from_slice(payload);
    assert(out@ =~= request_of(kind, payload@));
    out
}

/// The request for the version of the camera.
pub fn version_request() -> (out: Vec<u8>)
    ensures
        out@ == request_of(TYPE_REQUEST_VERSION, Seq::empty()),
{
    let payload: Vec<u8> = Vec::new();
    request(TYPE_REQUEST_VERSION, payload.as_slice())
}

/// The request for the resolution of the frames.
pub fn resolution_request() -> (out: Vec<u8>)
    ensures
        out@ == request_of(TYPE_REQUEST_RESOLUTION, seq![0u8]),
{
    let mut payload: Vec<u8> = Vec::new();
    payload.push(0);
    assert(payload@ =~= seq![0u8]);
    request(TYPE_REQUEST_RESOLUTION, payload.as_slice())
}

/// The request for at most `max_blocks` blocks of the signatures in
/// `sigmap`.
pub fn blocks_request(sigmap: SigMap, max_blocks: u8) -> (out: Vec<u8>)
    ensures
        out@ == request_of(CCC_REQUEST_BLOCKS, seq![sigmap.bits, max_blocks]),
{
    let mut payload: Vec<u8> = Vec::new();
    payload.push(sigmap.bits);
    payload.push(max_blocks);
    assert(payload@ =~= seq![sigmap.bits, max_blocks]);
    request(CCC_REQUEST_BLOCKS, payload.as_slice())
}


/// A response of the camera: its type byte and its payload.
#[derive(Debug, PartialEq, Eq)]
pub struct Response {
    pub kind: u8,
    pub body: Vec<u8>,
}

/// A [`Response`] as a mathematical value.
pub struct ResponseModel {
    pub kind: u8,
    pub body: Seq<u8>,
}

impl View for Response {
    type V = ResponseModel;

    open spec fn view(&self) -> ResponseModel {
        ResponseModel { kind: self.kind, body: self.body@ }
    }
}

/// What a transfer on the camera's bus gave.
#[derive(Debug, PartialEq, Eq)]
pub enum Transfer {
    /// The bytes that were read.
    Bytes(Vec<u8>),
    /// The transfer failed.
    Failed,
}

/// A [`Transfer`] as a mathematical value.
pub enum TransferModel {
    Bytes(Seq<u8>),
    Failed,
}

impl View for Transfer {
    type V = TransferModel;

    open spec fn view(&self) -> TransferModel {
        match self {
            Transfer::Bytes(b) => TransferModel::Bytes(b@),
            Transfer::Failed => TransferModel::Failed,
        }
    }
}

/// How the reception of a packet stands after a step.
#[derive(Debug, PartialEq, Eq)]
pub enum Received {
    /// More bytes are needed.
    Pending,
    /// More bytes are needed, after a pause of [`SYNC_PAUSE_US`].
    Pause,
    /// The packet is complete.
    Done(Response),
    /// The reception was given up.
    Failed(Pixy2Error),
}

/// A [`Received`] as a mathematical value.
pub enum ReceivedModel {
    Pending,
    Pause,
    Done(ResponseModel),
    Failed(Pixy2Error),
}

impl View for Received {
    type V = ReceivedModel;

    open spec fn view(&self) -> ReceivedModel {
        match self {
            Received::Pending => ReceivedModel::Pending,
            Received::Pause => ReceivedModel::Pause,
            Received::Done(r) => ReceivedModel::Done(r@),
            Received::Failed(e) => ReceivedModel::Failed(*e),
        }
    }
}

/// Microseconds to pause between two rounds of the search for a sync word.
pub const SYNC_PAUSE_US: u32 = 25;

/// Reads of one round of the search for a sync word, and rounds after
/// which the search is given up.
pub const SYNC_TRIES: u8 = 4;

/// Where a [`PacketReceiver`] is within a packet.
#[derive(Clone, Copy, Debug, PartialEq, Eq, Structural)]
pub enum ReceivePhase {
    /// Searching the sync word, byte by byte.
    Sync,
    /// Reading type, length and, if the packet has one, the checksum.
    Header,
    /// Reading the payload.
    Body,
}

/// A receiver paired with the outcome of the step that led to it.
pub struct ReceiveResult {
    pub next: PacketReceiver,
    pub outcome: ReceivedModel,
}

/// Receives one packet of the camera, transfer by transfer.
///
/// The receiver never touches the bus. It says how many bytes it wants
/// next; the caller transfers them and hands over what the transfer gave.
#[derive(Clone, Copy, Debug, PartialEq, Eq, Structural)]
pub struct PacketReceiver {
    pub phase: ReceivePhase,
    /// The byte read last while searching the sync word.
    pub previous: u8,
    /// Reads of the current round of the search.
    pub tries: u8,
    /// Rounds of the search that have ended.
    pub rounds: u8,
    /// Whether the packet carries a checksum.
    pub checksum: bool,
    pub kind: u8,
    pub length: u8,
    /// The checksum that the packet carries.
    pub expected: u16,
}

impl PacketReceiver {
    /// The receiver before the first byte of a packet.
    pub open spec fn fresh() -> PacketReceiver {
        PacketReceiver {
            phase: ReceivePhase::Sync,
            previous: 0,
            tries: 0,
            rounds: 0,
            checksum: false,
            kind: 0,
            length: 0,
            expected: 0,
        }
    }

    /// How many bytes the next transfer must deliver.
    pub open spec fn wanted(self) -> nat {
        match self.phase {
            ReceivePhase::Sync => 1,
            ReceivePhase::Header => if self.checksum {
                4
            } else {
                2
            },
            ReceivePhase::Body => self.length as nat,
        }
    }

    /// The input as the receiver takes it: a delivery of another length
    /// than was wanted counts as a failed transfer.
    pub open spec fn effective(self, input: TransferModel) -> TransferModel {
        match input {
            TransferModel::Bytes(b) => if b.len() == self.wanted() {
                input
            } else {
                TransferModel::Failed
            },
            TransferModel::Failed => input,
        }
    }

    /// Whether `byte`, read after the previous one, completes a sync word.
    pub open spec fn completes_sync(self, byte: u8) -> bool {
        spec_u16_le(self.previous, byte) == CHECKSUM_SYNC || spec_u16_le(self.previous, byte)
            == NO_CHECKSUM_SYNC
    }

    /// Whether the receiver searches the sync word and `input` delivers
    /// the byte that completes one.
    pub open spec fn finds_sync(self, input: TransferModel) -> bool {
        &&& self.phase == ReceivePhase::Sync
        &&& self.effective(input) is Bytes
        &&& self.completes_sync(self.effective(input)->Bytes_0[0])
    }

    /// The receiver after a read of the search that found no sync word,
    /// with `previous` as the byte to remember.
    pub open spec fn after_miss(self, previous: u8) -> ReceiveResult {
        if self.tries >= SYNC_TRIES {
            if self.rounds >= SYNC_TRIES {
                ReceiveResult {
                    next: Self::fresh(),
                    outcome: ReceivedModel::Failed(Pixy2Error::Error),
                }
            } else {
                ReceiveResult {
                    next: PacketReceiver {
                        previous,
                        tries: 1,
                        rounds: (self.rounds + 1) as u8,
                        ..self
                    },
                    outcome: ReceivedModel::Pause,
                }
            }
        } else {
            ReceiveResult {
                next: PacketReceiver { previous, tries: (self.tries + 1) as u8, ..self },
                outcome: ReceivedModel::Pending,
            }
        }
    }

    /// The outcome of a packet of type `kind` whose payload `body` is
    /// complete: a checksum error where the packet carries a checksum that
    /// is not the sum of the payload, the packet otherwise.
    pub open spec fn completed(checksum: bool, expected: u16, kind: u8, body: Seq<u8>)
        -> ReceivedModel {
        if checksum && spec_cumulative_sum(body) != expected {
            ReceivedModel::Failed(Pixy2Error::ChecksumError)
        } else {
            ReceivedModel::Done(ResponseModel { kind, body })
        }
    }

    /// One step of the receiver on an input.
    pub open spec fn spec_step(self, input: TransferModel) -> ReceiveResult {
        match self.phase {
            ReceivePhase::Sync => match self.effective(input) {
                TransferModel::Bytes(b) => if self.completes_sync(b[0]) {
                    ReceiveResult {
                        next: PacketReceiver {
                            phase: ReceivePhase::Header,
                            previous: b[0],
                            checksum: spec_u16_le(self.previous, b[0]) == CHECKSUM_SYNC,
                            ..self
                        },
                        outcome: ReceivedModel::Pending,
                    }
                } else {
                    self.after_miss(b[0])
                },
                TransferModel::Failed => self.after_miss(self.previous),
            },
            ReceivePhase::Header => match self.effective(input) {
                TransferModel::Bytes(b) => {
                    let expected = if self.checksum {
                        spec_u16_le(b[2], b[3])
                    } else {
                        0u16
                    };
                    if b[1] == 0 {
                        ReceiveResult {
                            next: Self::fresh(),
                            outcome: Self::completed(self.checksum, expected, b[0], Seq::empty()),
                        }
                    } else {
                        ReceiveResult {
                            next: PacketReceiver {
                                phase: ReceivePhase::Body,
                                kind: b[0],
                                length: b[1],
                                expected,
                                ..self
                            },
                            outcome: ReceivedModel::Pending,
                        }
                    }
                },
                TransferModel::Failed => ReceiveResult {
                    next: Self::fresh(),
                    outcome: ReceivedModel::Failed(Pixy2Error::Error),
                },
            },
            ReceivePhase::Body => match self.effective(input) {
                TransferModel::Bytes(b) => ReceiveResult {
                    next: Self::fresh(),
                    outcome: Self::completed(self.checksum, self.expected, self.kind, b),
                },
                TransferModel::Failed => ReceiveResult {
                    next: Self::fresh(),
                    outcome: ReceivedModel::Failed(Pixy2Error::Error),
                },
            },
        }
    }

    /// Reads that the search for a sync word has left, the one that gives
    /// it up counted in.
    pub open spec fn sync_budget(self) -> int {
        4 * (SYNC_TRIES - self.rounds) + (SYNC_TRIES - self.tries) + 1
    }

    /// A receiver before the first byte of a packet.
    pub fn new() -> (r: Self)
        ensures
            r == Self::fresh(),
    {
        PacketReceiver {
            phase: ReceivePhase::Sync,
            previous: 0,
            tries: 0,
            rounds: 0,
            checksum: false,
            kind: 0,
            length: 0,
            expected: 0,
        }
    }

    /// How many bytes the caller must transfer and hand to [`Self::step`]
    /// next.
    pub fn next_read(&self) -> (n: usize)
        ensures
            n == self.wanted(),
    {
        match self.phase {
            ReceivePhase::Sync => 1,
            ReceivePhase::Header => if self.checksum {
                4
            } else {
                2
            },
            ReceivePhase::Body => self.length as usize,
        }
    }

    fn miss(&mut self, previous: u8) -> (outcome: Received)
        ensures
            (ReceiveResult { next: *final(self), outcome: outcome@ }) == old(self).after_miss(
                previous,
            ),
    {
        if self.tries >= SYNC_TRIES {
            if self.rounds >= SYNC_TRIES {
                *self = Self::new();
                Received::Failed(Pixy2Error::Error)
            } else {
                self.previous = previous;
                self.tries = 1;
                self.rounds = self.rounds + 1;
                Received::Pause
            }
        } else {
            self.previous = previous;
            self.tries = self.tries + 1;
            Received::Pending
        }
    }

    fn complete(checksum: bool, expected: u16, kind: u8, body: Vec<u8>) -> (outcome: Received)
        ensures
            outcome@ == Self::completed(checksum, expected, kind, body@),
    {
        if checksum && cumulative_sum(body.as_slice()) != expected {
            Received::Failed(Pixy2Error::ChecksumError)
        } else {
            Received::Done(Response { kind, body })
        }
    }

    /// Takes what the transfer of [`Self::next_read`] bytes gave and moves
    /// on. After `Done` and after `Failed` the receiver is back before the
    /// first byte of a packet.
    pub fn step(&mut self, event: Transfer) -> (outcome: Received)
        ensures
            (ReceiveResult { next: *final(self), outcome: outcome@ }) == old(self).spec_step(
                event@,
            ),
            !(outcome@ is Pending || outcome@ is Pause) ==> *final(self) == Self::fresh(),
    {
        let wanted = self.next_read();
        let bytes: Option<Vec<u8>> = match event {
            Transfer::Bytes(b) => if b.len() == wanted {
                Some(b)
            } else {
                None
            },
            Transfer::Failed => None,
        };
        match self.phase {
            ReceivePhase::Sync => match bytes {
                Some(b) => {
                    let byte = b[0];
                    let word = u16_le(self.previous, byte);
                    if word == CHECKSUM_SYNC || word == NO_CHECKSUM_SYNC {
                        self.phase = ReceivePhase::Header;
                        self.previous = byte;
                        self.checksum = word == CHECKSUM_SYNC;
                        Received::Pending
                    } else {
                        self.miss(byte)
                    }
                },
                None => {
                    let previous = self.previous;
                    self.miss(previous)
                },
            },
            ReceivePhase::Header => match bytes {
                Some(b) => {
                    let kind = b[0];
                    let length = b[1];
                    let expected: u16 = if self.checksum {
                        u16_le(b[2], b[3])
                    } else {
                        0
                    };
                    if length == 0 {
                        let checksum = self.checksum;
                        *self = Self::new();
                        let body: Vec<u8> = Vec::new();
                        assert(body@ =~= Seq::<u8>::empty());
                        Self::complete(checksum, expected, kind, body)
                    } else {
                        self.phase = ReceivePhase::Body;
                        self.kind = kind;
                        self.length = length;
                        self.expected = expected;
                        Received::Pending
                    }
                },
                None => {
                    *self = Self::new();
                    Received::Failed(Pixy2Error::Error)
                },
            },
            ReceivePhase::Body => match bytes {
                Some(b) => {
                    let checksum = self.checksum;
                    let expected = self.expected;
                    let kind = self.kind;
                    *self = Self::new();
                    Self::complete(checksum, expected, kind, b)
                },
                None => {
                    *self = Self::new();
                    Received::Failed(Pixy2Error::Error)
                },
            },
        }
    }
}

/// Every read of the search that finds no sync word uses up one read of
/// the budget, and the search is given up by the read that uses up the
/// last: a search from the start ends within twenty-one reads.
pub proof fn lemma_sync_search_is_bounded(r: PacketReceiver, input: TransferModel)
    requires
        r.phase == ReceivePhase::Sync,
        r.tries <= SYNC_TRIES,
        r.rounds <= SYNC_TRIES,
        !r.finds_sync(input),
    ensures
        PacketReceiver::fresh().sync_budget() == 21,
        r.sync_budget() >= 1,
        r.spec_step(input).outcome == ReceivedModel::Failed(Pixy2Error::Error) <==> r.sync_budget()
            == 1,
        r.sync_budget() > 1 ==> {
            &&& r.spec_step(input).next.sync_budget() == r.sync_budget() - 1
            &&& r.spec_step(input).next.tries <= SYNC_TRIES
            &&& r.spec_step(input).next.rounds <= SYNC_TRIES
        },
{
}

/// The blocks that the payload of a response holds: one for every whole
/// fourteen bytes, up to eighteen.
pub open spec fn spec_blocks(body: Seq<u8>) -> Seq<Block> {
    Seq::new(
        if body.len() / BLOCK_SIZE as nat > MAX_BLOCKS {
            MAX_BLOCKS as nat
        } else {
            body.len() / BLOCK_SIZE as nat
        },
        |k: int| Block::spec_from(body.subrange(BLOCK_SIZE * k, BLOCK_SIZE * k + BLOCK_SIZE)),
    )
}

fn block_at(body: &[u8], k: usize) -> (b: Block)
    requires
        BLOCK_SIZE * k + BLOCK_SIZE <= body.len(),
    ensures
        b == Block::spec_from(body@.subrange(BLOCK_SIZE * k, BLOCK_SIZE * k + BLOCK_SIZE)),
{
    let at: usize = BLOCK_SIZE * k;
    let bytes: [u8; 14] = [
        body[at],
        body[at + 1],
        body[at + 2],
        body[at + 3],
        body[at + 4],
        body[at + 5],
        body[at + 6],
        body[at + 7],
        body[at + 8],
        body[at + 9],
        body[at + 10],
        body[at + 11],
        body[at + 12],
        body[at + 13],
    ];
    assert(bytes@ =~= body@.subrange(BLOCK_SIZE * k, BLOCK_SIZE * k + BLOCK_SIZE));
    Block::from(&bytes)
}

/// Decodes the blocks of the payload of a response.
pub fn decode_blocks(body: &[u8]) -> (blocks: Vec<Block>)
    ensures
        blocks@ == spec_blocks(body@),
        blocks.len() <= MAX_BLOCKS,
{
    let held: usize = body.len() / BLOCK_SIZE;
    let n: usize = if held > MAX_BLOCKS {
        MAX_BLOCKS
    } else {
        held
    };
    let mut blocks: Vec<Block> = Vec::new();
    let mut k: usize = 0;
    while k < n
        invariant
            k <= n,
            n <= MAX_BLOCKS,
            n <= body.len() / BLOCK_SIZE,
            blocks.len() == k,
            forall|j: int|
                0 <= j < k ==> blocks[j] == Block::spec_from(
                    body@.subrange(BLOCK_SIZE * j, BLOCK_SIZE * j + BLOCK_SIZE),
                ),
        decreases n - k,
    {
        blocks.push(block_at(body, k));
        k += 1;
    }
    assert(blocks@ =~= spec_blocks(body@));
    blocks
}

/// What is to be done after a response to a request for blocks.
#[derive(Clone, Copy, Debug, PartialEq, Eq)]
pub enum BlocksStep {
    /// The exchange is over, with the number of blocks or an error.
    Done(Result<u8, Pixy2Error>),
    /// Pause for [`RETRY_PAUSE_US`] and send the request again.
    Retry,
}

/// Microseconds to pause before a request for blocks is sent again.
pub const RETRY_PAUSE_US: u32 = 500;

/// What the camera is known to have reported.
pub struct Pixy2 {
    pub version: Version,
    pub frame_width: u16,
    pub frame_height: u16,
    /// The blocks of the last response that held blocks.
    pub blocks: Vec<Block>,
}

/// Whether `received` is a response of type `kind`.
pub open spec fn is_response(received: Result<Response, Pixy2Error>, kind: u8) -> bool {
    received is Ok && received->Ok_0.kind == kind
}

/// What a response to a request for the version means: the version where
/// the response is one of at least sixteen and at most 255 bytes, `Busy`
/// where the camera reports an error, and `Error` in every other case.
pub open spec fn version_result(received: Result<Response, Pixy2Error>) -> Result<u8, Pixy2Error> {
    if is_response(received, TYPE_RESPONSE_VERSION) && 16 <= received->Ok_0.body.len() <= 255 {
        Ok(received->Ok_0.body.len() as u8)
    } else if is_response(received, TYPE_RESPONSE_ERROR) {
        Err(Pixy2Error::Busy)
    } else {
        Err(Pixy2Error::Error)
    }
}

/// What a response to a request for the resolution means: the error of the
/// reception where it failed, `Error` where the response is of another
/// type or shorter than four bytes, and success otherwise.
pub open spec fn resolution_result(received: Result<Response, Pixy2Error>) -> Result<
    (),
    Pixy2Error,
> {
    match received {
        Err(e) => Err(e),
        Ok(r) => if r.kind == TYPE_RESPONSE_RESOLUTION && r.body.len() >= 4 {
            Ok(())
        } else {
            Err(Pixy2Error::Error)
        },
    }
}

/// What an error response to a request for blocks means. The camera being
/// busy ends the exchange unless the caller waits; a changing program is
/// always waited for; the code of success means that there are no blocks;
/// any other code ends the exchange with the error that it reports, or
/// with `Error` where it reports none.
pub open spec fn blocks_error_step(body: Seq<u8>, wait: bool) -> BlocksStep {
    if body.len() == 0 {
        BlocksStep::Done(Err(Pixy2Error::Error))
    } else if spec_i8(body[0]) == Pixy2Error::Busy.spec_to_code() {
        if wait {
            BlocksStep::Retry
        } else {
            BlocksStep::Done(Err(Pixy2Error::Busy))
        }
    } else if spec_i8(body[0]) == Pixy2Error::ProgChanging.spec_to_code() {
        BlocksStep::Retry
    } else if spec_i8(body[0]) == 0 {
        BlocksStep::Done(Ok(0))
    } else {
        match Pixy2Error::spec_from_code(spec_i8(body[0])) {
            Some(e) => BlocksStep::Done(Err(e)),
            None => BlocksStep::Done(Err(Pixy2Error::Error)),
        }
    }
}

/// What a response to a request for blocks means.
pub open spec fn blocks_step(received: Result<Response, Pixy2Error>, wait: bool) -> BlocksStep {
    match received {
        Err(e) => BlocksStep::Done(Err(e)),
        Ok(r) => if r.kind == CCC_RESPONSE_BLOCKS {
            BlocksStep::Done(Ok(spec_blocks(r.body@).len() as u8))
        } else if r.kind == TYPE_RESPONSE_ERROR {
            blocks_error_step(r.body@, wait)
        } else {
            BlocksStep::Retry
        },
    }
}

impl Pixy2 {
    /// Whether all that is known of the camera is zero.
    pub open spec fn is_blank(self) -> bool {
        &&& self.version.hardware == 0
        &&& self.version.firmware_major == 0
        &&& self.version.firmware_minor == 0
        &&& self.version.firmware_build == 0
        &&& self.version.firmware_type@ == Seq::new(10, |i: int| 0u8)
        &&& self.frame_width == 0
        &&& self.frame_height == 0
        &&& self.blocks@.len() == 0
    }

    /// The state before the camera has reported anything.
    pub fn new() -> (p: Self)
        ensures
            p.is_blank(),
    {
        let firmware_type: [u8; 10] = [0, 0, 0, 0, 0, 0, 0, 0, 0, 0];
        assert(firmware_type@ =~= Seq::new(10, |i: int| 0u8));
        Pixy2 {
            version: Version {
                hardware: 0,
                firmware_major: 0,
                firmware_minor: 0,
                firmware_build: 0,
                firmware_type,
            },
            frame_width: 0,
            frame_height: 0,
            blocks: Vec::new(),
        }
    }

    /// The number of blocks of the last response that held blocks.
    pub fn num_blocks(&self) -> (n: usize)
        ensures
            n == self.blocks@.len(),
    {
        self.blocks.len()
    }

    /// Takes the response to a request for the version. On success the
    /// version is stored and the length of the response returned.
    pub fn get_version(&mut self, received: &Result<Response, Pixy2Error>) -> (r: Result<
        u8,
        Pixy2Error,
    >)
        ensures
            r == version_result(*received),
            r is Ok ==> Version::is_from(
                final(self).version,
                received->Ok_0.body@.subrange(0, 16),
            ),
            r is Err ==> final(self).version == old(self).version,
            final(self).frame_width == old(self).frame_width,
            final(self).frame_height == old(self).frame_height,
            final(self).blocks == old(self).blocks,
    {
        match received {
            Ok(response) => {
                if response.kind == TYPE_RESPONSE_VERSION {
                    let n = response.body.len();
                    if 16 <= n && n <= 255 {
                        let b = &response.body;
                        let bytes: [u8; 16] = [
                            b[0],
                            b[1],
                            b[2],
                            b[3],
                            b[4],
                            b[5],
                            b[6],
                            b[7],
                            b[8],
                            b[9],
                            b[10],
                            b[11],
                            b[12],
                            b[13],
                            b[14],
                            b[15],
                        ];
                        assert(bytes@ =~= b@.subrange(0, 16));
                        self.version = Version::from(&bytes);
                        Ok(n as u8)
                    } else {
                        Err(Pixy2Error::Error)
                    }
                } else if response.kind == TYPE_RESPONSE_ERROR {
                    Err(Pixy2Error::Busy)
                } else {
                    Err(Pixy2Error::Error)
                }
            },
            Err(_) => Err(Pixy2Error::Error),
        }
    }

    /// Takes the response to a request for the resolution. On success the
    /// width and the height of the frames are stored.
    pub fn get_resolution(&mut self, received: &Result<Response, Pixy2Error>) -> (r: Result<
        (),
        Pixy2Error,
    >)
        ensures
            r == resolution_result(*received),
            r is Ok ==> final(self).frame_width == spec_u16_le(
                received->Ok_0.body[0],
                received->Ok_0.body[1],
            ) && final(self).frame_height == spec_u16_le(
                received->Ok_0.body[2],
                received->Ok_0.body[3],
            ),
            r is Err ==> final(self).frame_width == old(self).frame_width,
            r is Err ==> final(self).frame_height == old(self).frame_height,
            final(self).version == old(self).version,
            final(self).blocks == old(self).blocks,
    {
        match received {
            Ok(response) => {
                if response.kind == TYPE_RESPONSE_RESOLUTION && response.body.len() >= 4 {
                    let b = &response.body;
                    self.frame_width = u16_le(b[0], b[1]);
                    self.frame_height = u16_le(b[2], b[3]);
                    Ok(())
                } else {
                    Err(Pixy2Error::Error)
                }
            },
            Err(e) => Err(*e),
        }
    }

    /// Takes the response to a request for blocks. A response that holds
    /// blocks replaces the stored blocks; any other one leaves none stored.
    pub fn get_blocks(&mut self, received: &Result<Response, Pixy2Error>, wait: bool) -> (step:
        BlocksStep)
        ensures
            step == blocks_step(*received, wait),
            final(self).blocks@ == if is_response(*received, CCC_RESPONSE_BLOCKS) {
                spec_blocks(received->Ok_0.body@)
            } else {
                Seq::<Block>::empty()
            },
            final(self).version == old(self).version,
            final(self).frame_width == old(self).frame_width,
            final(self).frame_height == old(self).frame_height,
    {
        self.blocks = Vec::new();
        match received {
            Err(e) => BlocksStep::Done(Err(*e)),
            Ok(response) => {
                if response.kind == CCC_RESPONSE_BLOCKS {
                    self.blocks = decode_blocks(response.body.as_slice());
                    BlocksStep::Done(Ok(self.blocks.len() as u8))
                } else if response.kind == TYPE_RESPONSE_ERROR {
                    if response.body.len() == 0 {
                        return BlocksStep::Done(Err(Pixy2Error::Error));
                    }
                    let code = i8_from_byte(response.body[0]);
                    if code == Pixy2Error::Busy.to_code() {
                        if wait {
                            BlocksStep::Retry
                        } else {
                            BlocksStep::Done(Err(Pixy2Error::Busy))
                        }
                    } else if code == Pixy2Error::ProgChanging.to_code() {
                        BlocksStep::Retry
                    } else if code == Pixy2Error::ok_code() {
                        BlocksStep::Done(Ok(0))
                    } else {
                        match Pixy2Error::from_code(code) {
                            Some(e) => BlocksStep::Done(Err(e)),
                            None => BlocksStep::Done(Err(Pixy2Error::Error)),
                        }
                    }
                } else {
                    BlocksStep::Retry
                }
            },
        }
    }
}

} // verus!
