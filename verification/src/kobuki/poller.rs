//! Receive state machine for feedback frames of the drive base.
//!
//! The machine never touches the serial line. It says how many bytes it
//! wants next; the caller reads them and hands over what the read gave, and
//! the machine answers whether the poll goes on, is done, or has failed.

use crate::kobuki::sensors::{decode_payload, parse_packet, parse_sensor_packet, Sensors};
use crate::kobuki::utilities::{
    checksum,
    frame_payload,
    spec_checksum,
    valid_frame,
    FRAME_OVERHEAD,
    SYNC_0,
    SYNC_1,
};
use vstd::prelude::*;

verus! {

/// Size of the buffer that a whole feedback frame must fit in.
pub const PACKET_CAPACITY: usize = 140;

/// Largest payload length that a feedback frame may declare: the buffer's
/// capacity less the framing overhead.
pub const MAX_PAYLOAD: u8 = 136;

/// Consecutive failed reads, while waiting for the sync bytes, at which a
/// poll is given up.
pub const MAX_READ_FAILURES: u8 = 20;

/// Checksum failures that a poll forgives; the next one ends it.
pub const MAX_CHECKSUM_FAILURES: u8 = 3;

/// What a failed read or write on the serial line reports.
#[derive(Clone, Copy, Debug, PartialEq, Eq, Structural)]
pub enum TransportError {
    TxBufferTooLong,
    RxBufferTooLong,
    Transmit,
    Receive,
    /// The read timed out after this many bytes.
    Timeout(usize),
    BufferNotInRAM,
}

/// Why a poll was given up.
#[derive(Clone, Copy, Debug, PartialEq, Eq, Structural)]
pub enum PollError {
    /// Too many reads in a row failed while waiting for the sync bytes: the
    /// base does not answer. Holds the error of the last read.
    NoResponse(TransportError),
    /// A read failed in the middle of a frame.
    Transport(TransportError),
    /// The frame declares a payload longer than the buffer can take.
    OversizedPacket(u8),
    /// One checksum failure more than a poll forgives.
    ChecksumFailures,
}

/// Where the machine is within a frame.
#[derive(Clone, Copy, Debug, PartialEq, Eq, Structural)]
pub enum ReceiveStateType {
    WaitUntilAa,
    ReadLength,
    ReadPayload,
    ReadChecksum,
}

/// What a read on the serial line gave.
#[derive(Debug, PartialEq, Eq)]
pub enum PollEvent {
    /// The bytes that were read.
    Bytes(Vec<u8>),
    /// The read failed.
    Failed(TransportError),
}

/// A [`PollEvent`] as a mathematical value.
pub enum PollInput {
    Bytes(Seq<u8>),
    Failed(TransportError),
}

impl View for PollEvent {
    type V = PollInput;

    open spec fn view(&self) -> PollInput {
        match self {
            PollEvent::Bytes(b) => PollInput::Bytes(b@),
            PollEvent::Failed(e) => PollInput::Failed(*e),
        }
    }
}

/// How a poll stands after a step.
#[derive(Clone, Copy, Debug, PartialEq, Eq, Structural)]
pub enum PollStatus {
    /// More bytes are needed.
    Pending,
    /// A frame was received and decoded into the snapshot.
    Done,
    /// The poll was given up.
    Failed(PollError),
}

/// The state of a [`SensorPoller`] as a mathematical value.
pub struct PollerModel {
    pub state: ReceiveStateType,
    /// The bytes of the current frame buffered so far.
    pub packet: Seq<u8>,
    /// Failed reads in a row while waiting for the sync bytes.
    pub read_failures: nat,
    /// Checksum failures of this poll.
    pub checksum_failures: nat,
}

/// A state paired with the status that led to it.
pub struct StepResult {
    pub next: PollerModel,
    pub status: PollStatus,
}

impl PollerModel {
    /// The state in which every poll starts.
    pub open spec fn fresh() -> PollerModel {
        PollerModel {
            state: ReceiveStateType::WaitUntilAa,
            packet: Seq::empty(),
            read_failures: 0,
            checksum_failures: 0,
        }
    }

    /// The state right after a checksum failure that the poll forgives.
    pub open spec fn resynchronizing(checksum_failures: nat) -> PollerModel {
        PollerModel {
            state: ReceiveStateType::WaitUntilAa,
            packet: Seq::empty(),
            read_failures: 0,
            checksum_failures,
        }
    }

    /// The buffered bytes are what the state says has been read, and both
    /// counters are within their budgets.
    pub open spec fn wf(self) -> bool {
        &&& self.read_failures < MAX_READ_FAILURES
        &&& self.checksum_failures <= MAX_CHECKSUM_FAILURES
        &&& match self.state {
            ReceiveStateType::WaitUntilAa => self.packet.len() == 0,
            ReceiveStateType::ReadLength => {
                &&& self.read_failures == 0
                &&& self.packet == seq![SYNC_0, SYNC_1]
            },
            ReceiveStateType::ReadPayload => {
                &&& self.read_failures == 0
                &&& self.packet.len() == 3
                &&& self.packet[0] == SYNC_0
                &&& self.packet[1] == SYNC_1
                &&& 1 <= self.packet[2] <= MAX_PAYLOAD
            },
            ReceiveStateType::ReadChecksum => {
                &&& self.read_failures == 0
                &&& self.packet.len() >= 3
                &&& self.packet[0] == SYNC_0
                &&& self.packet[1] == SYNC_1
                &&& self.packet[2] <= MAX_PAYLOAD
                &&& self.packet.len() == 3 + self.packet[2]
            },
        }
    }

    /// How many bytes the next read must deliver.
    pub open spec fn wanted(self) -> nat {
        match self.state {
            ReceiveStateType::WaitUntilAa => 2,
            ReceiveStateType::ReadLength => 1,
            ReceiveStateType::ReadPayload => self.packet[2] as nat,
            ReceiveStateType::ReadChecksum => 1,
        }
    }

    /// The input as the machine takes it: a delivery of another length than
    /// was wanted counts as a failed receive.
    pub open spec fn effective(self, input: PollInput) -> PollInput {
        match input {
            PollInput::Bytes(b) => if b.len() == self.wanted() {
                input
            } else {
                PollInput::Failed(TransportError::Receive)
            },
            PollInput::Failed(_) => input,
        }
    }

    /// One step of the machine on an input.
    pub open spec fn step(self, input: PollInput) -> StepResult {
        match self.effective(input) {
            PollInput::Failed(e) => match self.state {
                ReceiveStateType::WaitUntilAa => if self.read_failures + 1 >= MAX_READ_FAILURES {
                    StepResult {
                        next: Self::fresh(),
                        status: PollStatus::Failed(PollError::NoResponse(e)),
                    }
                } else {
                    StepResult {
                        next: PollerModel { read_failures: self.read_failures + 1, ..self },
                        status: PollStatus::Pending,
                    }
                },
                _ => StepResult {
                    next: Self::fresh(),
                    status: PollStatus::Failed(PollError::Transport(e)),
                },
            },
            PollInput::Bytes(b) => match self.state {
                ReceiveStateType::WaitUntilAa => if b[0] == SYNC_0 && b[1] == SYNC_1 {
                    StepResult {
                        next: PollerModel {
                            state: ReceiveStateType::ReadLength,
                            packet: b,
                            read_failures: 0,
                            ..self
                        },
                        status: PollStatus::Pending,
                    }
                } else {
                    StepResult {
                        next: PollerModel { read_failures: 0, ..self },
                        status: PollStatus::Pending,
                    }
                },
                ReceiveStateType::ReadLength => if b[0] > MAX_PAYLOAD {
                    StepResult {
                        next: Self::fresh(),
                        status: PollStatus::Failed(PollError::OversizedPacket(b[0])),
                    }
                } else {
                    StepResult {
                        next: PollerModel {
                            state: if b[0] == 0 {
                                ReceiveStateType::ReadChecksum
                            } else {
                                ReceiveStateType::ReadPayload
                            },
                            packet: self.packet + b,
                            ..self
                        },
                        status: PollStatus::Pending,
                    }
                },
                ReceiveStateType::ReadPayload => StepResult {
                    next: PollerModel {
                        state: ReceiveStateType::ReadChecksum,
                        packet: self.packet + b,
                        ..self
                    },
                    status: PollStatus::Pending,
                },
                ReceiveStateType::ReadChecksum => if b[0] == spec_checksum(self.packet) {
                    StepResult { next: Self::fresh(), status: PollStatus::Done }
                } else if self.checksum_failures >= MAX_CHECKSUM_FAILURES {
                    StepResult {
                        next: Self::fresh(),
                        status: PollStatus::Failed(PollError::ChecksumFailures),
                    }
                } else {
                    StepResult {
                        next: Self::resynchronizing(self.checksum_failures + 1),
                        status: PollStatus::Pending,
                    }
                },
            },
        }
    }

    /// The snapshot after a step: the frame is decoded into it when the step
    /// completes one, and it stays as it is otherwise.
    pub open spec fn snapshot_after(self, input: PollInput, sensors: Sensors) -> Sensors {
        if self.step(input).status == PollStatus::Done {
            parse_packet(self.packet, sensors)
        } else {
            sensors
        }
    }

    /// The snapshot after the machine was fed with `inputs` one after the
    /// other, up to the first step that ends the poll.
    pub open spec fn run_snapshot(self, inputs: Seq<PollInput>, sensors: Sensors) -> Sensors
        decreases inputs.len(),
    {
        if inputs.len() == 0 {
            sensors
        } else {
            let r = self.step(inputs[0]);
            let after = self.snapshot_after(inputs[0], sensors);
            if r.status == PollStatus::Pending {
                r.next.run_snapshot(inputs.skip(1), after)
            } else {
                after
            }
        }
    }

    /// The machine fed with `inputs` one after the other, up to the first
    /// step that ends the poll.
    pub open spec fn run(self, inputs: Seq<PollInput>) -> StepResult
        decreases inputs.len(),
    {
        if inputs.len() == 0 {
            StepResult { next: self, status: PollStatus::Pending }
        } else {
            let r = self.step(inputs[0]);
            if r.status == PollStatus::Pending {
                r.next.run(inputs.skip(1))
            } else {
                r
            }
        }
    }
}

/// The reads that deliver one frame piece by piece: the sync bytes, the
/// length byte, the payload if there is one, and `check` as checksum byte.
pub open spec fn frame_reads(payload: Seq<u8>, check: u8) -> Seq<PollInput>
    recommends
        payload.len() <= MAX_PAYLOAD,
{
    let lead = seq![
        PollInput::Bytes(seq![SYNC_0, SYNC_1]),
        PollInput::Bytes(seq![payload.len() as u8]),
    ];
    let body = if payload.len() == 0 {
        Seq::<PollInput>::empty()
    } else {
        seq![PollInput::Bytes(payload)]
    };
    lead + body + seq![PollInput::Bytes(seq![check])]
}

/// The packet that the machine has buffered when it has read all of a frame
/// but its checksum byte.
pub open spec fn packet_of(payload: Seq<u8>) -> Seq<u8>
    recommends
        payload.len() <= MAX_PAYLOAD,
{
    seq![SYNC_0, SYNC_1, payload.len() as u8] + payload
}

/// Receives one feedback frame, read by read.
pub struct SensorPoller {
    state: ReceiveStateType,
    packet: Vec<u8>,
    read_failures: u8,
    checksum_failures: u8,
}

impl View for SensorPoller {
    type V = PollerModel;

    closed spec fn view(&self) -> PollerModel {
        PollerModel {
            state: self.state,
            packet: self.packet@,
            read_failures: self.read_failures as nat,
            checksum_failures: self.checksum_failures as nat,
        }
    }
}

impl SensorPoller {
    /// A poller at the start of a poll.
    pub fn new() -> (p: Self)
        ensures
            p@ == PollerModel::fresh(),
            p@.wf(),
    {
        SensorPoller {
            state: ReceiveStateType::WaitUntilAa,
            packet: Vec::new(),
            read_failures: 0,
            checksum_failures: 0,
        }
    }

    /// How many bytes the caller must read and hand to [`Self::step`] next.
    pub fn next_read(&self) -> (n: usize)
        requires
            self@.wf(),
        ensures
            n == self@.wanted(),
            1 <= n <= MAX_PAYLOAD,
    {
        match self.state {
            ReceiveStateType::WaitUntilAa => 2,
            ReceiveStateType::ReadLength => 1,
            ReceiveStateType::ReadPayload => self.packet[2] as usize,
            ReceiveStateType::ReadChecksum => 1,
        }
    }

    /// Where the machine is within a frame.
    pub fn state(&self) -> (s: ReceiveStateType)
        ensures
            s == self@.state,
    {
        self.state
    }

    /// Checksum failures of the poll so far.
    pub fn checksum_failures(&self) -> (n: u8)
        ensures
            n == self@.checksum_failures,
    {
        self.checksum_failures
    }

    fn reset(&mut self)
        ensures
            final(self)@ == PollerModel::fresh(),
    {
        self.state = ReceiveStateType::WaitUntilAa;
        self.packet.clear();
        self.read_failures = 0;
        self.checksum_failures = 0;
        assert(self.packet@ =~= Seq::<u8>::empty());
    }

    fn fail_read(&mut self, e: TransportError) -> (status: PollStatus)
        requires
            old(self)@.wf(),
        ensures
            final(self)@.wf(),
            (StepResult { next: final(self)@, status }) == old(self)@.step(PollInput::Failed(e)),
            status != PollStatus::Done,
    {
        match self.state {
            ReceiveStateType::WaitUntilAa => {
                if self.read_failures + 1 >= MAX_READ_FAILURES {
                    self.reset();
                    PollStatus::Failed(PollError::NoResponse(e))
                } else {
                    self.read_failures = self.read_failures + 1;
                    PollStatus::Pending
                }
            },
            _ => {
                self.reset();
                PollStatus::Failed(PollError::Transport(e))
            },
        }
    }

    /// Takes what the read of [`Self::next_read`] bytes gave and moves on.
    ///
    /// When the step completes a frame whose checksum matches, the frame is
    /// decoded into `sensors` and the status is `Done`. In every other case
    /// `sensors` is left as it was. After `Done` and after `Failed` the
    /// poller is back at the start of a poll.
    pub fn step(&mut self, event: PollEvent, sensors: &mut Sensors) -> (status: PollStatus)
        requires
            old(self)@.wf(),
        ensures
            final(self)@.wf(),
            (StepResult { next: final(self)@, status }) == old(self)@.step(event@),
            *final(sensors) == old(self)@.snapshot_after(event@, *old(sensors)),
            status != PollStatus::Done ==> *final(sensors) == *old(sensors),
            status == PollStatus::Done ==> event@ is Bytes && valid_frame(
                old(self)@.packet + event@->Bytes_0,
            ),
            status == PollStatus::Done ==> *final(sensors) == decode_payload(
                frame_payload(old(self)@.packet + event@->Bytes_0),
                *old(sensors),
            ),
            status != PollStatus::Pending ==> final(self)@ == PollerModel::fresh(),
    {
        let wanted = self.next_read();
        match event {
            PollEvent::Failed(e) => self.fail_read(e),
            PollEvent::Bytes(b) => {
                if b.len() != wanted {
                    return self.fail_read(TransportError::Receive);
                }
                match self.state {
                    ReceiveStateType::WaitUntilAa => {
                        self.read_failures = 0;
                        if b[0] == SYNC_0 && b[1] == SYNC_1 {
                            self.state = ReceiveStateType::ReadLength;
                            self.packet = b;
                            assert(self.packet@ =~= seq![SYNC_0, SYNC_1]);
                        }
                        PollStatus::Pending
                    },
                    ReceiveStateType::ReadLength => {
                        let len = b[0];
                        if len > MAX_PAYLOAD {
                            self.reset();
                            PollStatus::Failed(PollError::OversizedPacket(len))
                        } else {
                            self.packet.push(len);
                            assert(self.packet@ =~= old(self)@.packet + b@);
                            self.state = if len == 0 {
                                ReceiveStateType::ReadChecksum
                            } else {
                                ReceiveStateType::ReadPayload
                            };
                            PollStatus::Pending
                        }
                    },
                    ReceiveStateType::ReadPayload => {
                        self.packet.extend_from_slice(b.as_slice());
                        self.state = ReceiveStateType::ReadChecksum;
                        assert(self@.packet =~= old(self)@.packet + b@);
                        PollStatus::Pending
                    },
                    ReceiveStateType::ReadChecksum => {
                        let calculated = checksum(self.packet.as_slice());
                        if calculated == b[0] {
                            proof {
                                let whole = old(self)@.packet + b@;
                                assert(whole.drop_last() =~= old(self)@.packet);
                                assert(whole.len() == old(self)@.packet[2] + FRAME_OVERHEAD);
                                assert(frame_payload(whole) =~= old(self)@.packet.subrange(
                                    3,
                                    3 + old(self)@.packet[2],
                                ));
                            }
                            parse_sensor_packet(self.packet.as_slice(), sensors);
                            self.reset();
                            PollStatus::Done
                        } else if self.checksum_failures >= MAX_CHECKSUM_FAILURES {
                            self.reset();
                            PollStatus::Failed(PollError::ChecksumFailures)
                        } else {
                            let failures = self.checksum_failures + 1;
                            self.reset();
                            self.checksum_failures = failures;
                            PollStatus::Pending
                        }
                    },
                }
            },
        }
    }
}


/// Feeding two runs of inputs one after the other is feeding the first and,
/// if the poll has not ended by then, the second from where the first left
/// the machine.
pub proof fn lemma_run_append(m: PollerModel, a: Seq<PollInput>, b: Seq<PollInput>)
    ensures
        m.run(a + b) == if m.run(a).status == PollStatus::Pending {
            m.run(a).next.run(b)
        } else {
            m.run(a)
        },
    decreases a.len(),
{
    if a.len() == 0 {
        assert(a + b =~= b);
    } else {
        assert((a + b)[0] == a[0]);
        assert((a + b).skip(1) =~= a.skip(1) + b);
        let r = m.step(a[0]);
        if r.status == PollStatus::Pending {
            lemma_run_append(r.next, a.skip(1), b);
        }
    }
}

/// A poll that does not end in `Done` leaves the snapshot as it was,
/// whatever was read.
pub proof fn lemma_unfinished_poll_keeps_snapshot(
    m: PollerModel,
    inputs: Seq<PollInput>,
    sensors: Sensors,
)
    requires
        m.run(inputs).status != PollStatus::Done,
    ensures
        m.run_snapshot(inputs, sensors) == sensors,
    decreases inputs.len(),
{
    if inputs.len() > 0 {
        let r = m.step(inputs[0]);
        if r.status == PollStatus::Pending {
            lemma_unfinished_poll_keeps_snapshot(r.next, inputs.skip(1), sensors);
        }
    }
}

/// What the reads of one frame do to a machine that waits for sync bytes
/// after `failures` checksum failures. A matching checksum byte ends the
/// poll with `Done`. Another one is forgiven while fewer than three
/// failures went before, and ends the poll with an error at the fourth.
pub proof fn lemma_frame_reads(failures: nat, payload: Seq<u8>, check: u8)
    requires
        failures <= MAX_CHECKSUM_FAILURES,
        payload.len() <= MAX_PAYLOAD,
    ensures
        PollerModel::resynchronizing(failures).run(frame_reads(payload, check)) == if check
            == spec_checksum(packet_of(payload)) {
            StepResult { next: PollerModel::fresh(), status: PollStatus::Done }
        } else if failures < MAX_CHECKSUM_FAILURES {
            StepResult {
                next: PollerModel::resynchronizing(failures + 1),
                status: PollStatus::Pending,
            }
        } else {
            StepResult {
                next: PollerModel::fresh(),
                status: PollStatus::Failed(PollError::ChecksumFailures),
            }
        },
{
    let reads = frame_reads(payload, check);
    let sync = PollInput::Bytes(seq![SYNC_0, SYNC_1]);
    let length = PollInput::Bytes(seq![payload.len() as u8]);
    let body = PollInput::Bytes(payload);
    let last = PollInput::Bytes(seq![check]);
    let m0 = PollerModel::resynchronizing(failures);
    let m1 = m0.step(sync).next;
    let m2 = m1.step(length).next;
    assert(m1.packet + seq![payload.len() as u8] =~= seq![SYNC_0, SYNC_1, payload.len() as u8]);
    if payload.len() == 0 {
        assert(reads =~= seq![sync, length, last]);
        assert(reads.skip(1) =~= seq![length, last]);
        assert(reads.skip(1).skip(1) =~= seq![last]);
        assert(reads.skip(1).skip(1).skip(1) =~= Seq::<PollInput>::empty());
        assert(m2.packet =~= packet_of(payload));
        let r = m2.step(last);
        assert(r.next.run(Seq::<PollInput>::empty()) == StepResult {
            next: r.next,
            status: PollStatus::Pending,
        });
        assert(m2.run(seq![last]) == if r.status == PollStatus::Pending {
            r.next.run(seq![last].skip(1))
        } else {
            r
        });
        assert(m1.run(seq![length, last]) == m2.run(seq![last]));
        assert(m0.run(reads) == m1.run(seq![length, last]));
    } else {
        assert(reads =~= seq![sync, length, body, last]);
        assert(reads.skip(1) =~= seq![length, body, last]);
        assert(reads.skip(1).skip(1) =~= seq![body, last]);
        assert(reads.skip(1).skip(1).skip(1) =~= seq![last]);
        assert(reads.skip(1).skip(1).skip(1).skip(1) =~= Seq::<PollInput>::empty());
        let m3 = m2.step(body).next;
        assert(m3.packet =~= packet_of(payload));
        let r = m3.step(last);
        assert(r.next.run(Seq::<PollInput>::empty()) == StepResult {
            next: r.next,
            status: PollStatus::Pending,
        });
        assert(m3.run(seq![last]) == if r.status == PollStatus::Pending {
            r.next.run(seq![last].skip(1))
        } else {
            r
        });
        assert(m2.run(seq![body, last]) == m3.run(seq![last]));
        assert(m1.run(seq![length, body, last]) == m2.run(seq![body, last]));
        assert(m0.run(reads) == m1.run(seq![length, body, last]));
    }
}

/// Four frames in a row whose checksum byte does not match end the poll
/// with an error, and the snapshot is left as it was before the poll.
pub proof fn lemma_four_checksum_failures_abort(
    payloads: Seq<Seq<u8>>,
    checks: Seq<u8>,
    sensors: Sensors,
)
    requires
        payloads.len() == 4,
        checks.len() == 4,
        forall|k: int| 0 <= k < 4 ==> (#[trigger] payloads[k]).len() <= MAX_PAYLOAD,
        forall|k: int| 0 <= k < 4 ==> checks[k] != spec_checksum(packet_of(#[trigger] payloads[k])),
    ensures
        ({
            let reads = frame_reads(payloads[0], checks[0]) + frame_reads(payloads[1], checks[1])
                + frame_reads(payloads[2], checks[2]) + frame_reads(payloads[3], checks[3]);
            &&& PollerModel::fresh().run(reads) == StepResult {
                next: PollerModel::fresh(),
                status: PollStatus::Failed(PollError::ChecksumFailures),
            }
            &&& PollerModel::fresh().run_snapshot(reads, sensors) == sensors
        }),
{
    let r0 = frame_reads(payloads[0], checks[0]);
    let r1 = frame_reads(payloads[1], checks[1]);
    let r2 = frame_reads(payloads[2], checks[2]);
    let r3 = frame_reads(payloads[3], checks[3]);
    let m0 = PollerModel::fresh();
    assert(m0 == PollerModel::resynchronizing(0));
    assert(payloads[0].len() <= MAX_PAYLOAD && payloads[1].len() <= MAX_PAYLOAD);
    assert(payloads[2].len() <= MAX_PAYLOAD && payloads[3].len() <= MAX_PAYLOAD);
    lemma_frame_reads(0, payloads[0], checks[0]);
    lemma_frame_reads(1, payloads[1], checks[1]);
    lemma_frame_reads(2, payloads[2], checks[2]);
    lemma_frame_reads(3, payloads[3], checks[3]);
    lemma_run_append(m0, r0, r1);
    lemma_run_append(m0, r0 + r1, r2);
    lemma_run_append(m0, r0 + r1 + r2, r3);
    lemma_unfinished_poll_keeps_snapshot(m0, r0 + r1 + r2 + r3, sensors);
}

/// The snapshot after two runs of inputs fed one after the other is the
/// snapshot after the first and, if the poll has not ended by then, after
/// the second from where the first left the machine and the snapshot.
pub proof fn lemma_run_snapshot_append(
    m: PollerModel,
    a: Seq<PollInput>,
    b: Seq<PollInput>,
    sensors: Sensors,
)
    ensures
        m.run_snapshot(a + b, sensors) == if m.run(a).status == PollStatus::Pending {
            m.run(a).next.run_snapshot(b, m.run_snapshot(a, sensors))
        } else {
            m.run_snapshot(a, sensors)
        },
    decreases a.len(),
{
    if a.len() == 0 {
        assert(a + b =~= b);
    } else {
        assert((a + b)[0] == a[0]);
        assert((a + b).skip(1) =~= a.skip(1) + b);
        let r = m.step(a[0]);
        if r.status == PollStatus::Pending {
            lemma_run_snapshot_append(r.next, a.skip(1), b, m.snapshot_after(a[0], sensors));
        }
    }
}

/// The reads of a frame whose checksum byte matches decode the frame into
/// the snapshot, however many checksum failures the poll has forgiven.
pub proof fn lemma_good_frame_is_decoded(failures: nat, payload: Seq<u8>, sensors: Sensors)
    requires
        failures <= MAX_CHECKSUM_FAILURES,
        payload.len() <= MAX_PAYLOAD,
    ensures
        PollerModel::resynchronizing(failures).run_snapshot(
            frame_reads(payload, spec_checksum(packet_of(payload))),
            sensors,
        ) == parse_packet(packet_of(payload), sensors),
{
    let check = spec_checksum(packet_of(payload));
    let reads = frame_reads(payload, check);
    let sync = PollInput::Bytes(seq![SYNC_0, SYNC_1]);
    let length = PollInput::Bytes(seq![payload.len() as u8]);
    let body = PollInput::Bytes(payload);
    let last = PollInput::Bytes(seq![check]);
    let m0 = PollerModel::resynchronizing(failures);
    let m1 = m0.step(sync).next;
    let m2 = m1.step(length).next;
    assert(m1.packet + seq![payload.len() as u8] =~= seq![SYNC_0, SYNC_1, payload.len() as u8]);
    if payload.len() == 0 {
        assert(reads =~= seq![sync, length, last]);
        assert(reads.skip(1) =~= seq![length, last]);
        assert(reads.skip(1).skip(1) =~= seq![last]);
        assert(m2.packet =~= packet_of(payload));
        assert(m2.run_snapshot(seq![last], sensors) == parse_packet(m2.packet, sensors));
        assert(m1.run_snapshot(seq![length, last], sensors) == m2.run_snapshot(
            seq![last],
            sensors,
        ));
        assert(m0.run_snapshot(reads, sensors) == m1.run_snapshot(seq![length, last], sensors));
    } else {
        assert(reads =~= seq![sync, length, body, last]);
        assert(reads.skip(1) =~= seq![length, body, last]);
        assert(reads.skip(1).skip(1) =~= seq![body, last]);
        assert(reads.skip(1).skip(1).skip(1) =~= seq![last]);
        let m3 = m2.step(body).next;
        assert(m3.packet =~= packet_of(payload));
        assert(m3.run_snapshot(seq![last], sensors) == parse_packet(m3.packet, sensors));
        assert(m2.run_snapshot(seq![body, last], sensors) == m3.run_snapshot(
            seq![last],
            sensors,
        ));
        assert(m1.run_snapshot(seq![length, body, last], sensors) == m2.run_snapshot(
            seq![body, last],
            sensors,
        ));
        assert(m0.run_snapshot(reads, sensors) == m1.run_snapshot(
            seq![length, body, last],
            sensors,
        ));
    }
}

/// The reads that deliver the frames of `payloads` one after the other,
/// each with the checksum byte that `checks` holds for it.
pub open spec fn frames_reads(payloads: Seq<Seq<u8>>, checks: Seq<u8>) -> Seq<PollInput>
    recommends
        payloads.len() == checks.len(),
    decreases payloads.len(),
{
    if payloads.len() == 0 {
        Seq::empty()
    } else {
        frames_reads(payloads.drop_last(), checks.drop_last()) + frame_reads(
            payloads.last(),
            checks.last(),
        )
    }
}

/// Whether every frame of `payloads` fits the buffer and comes with a
/// checksum byte that does not match.
pub open spec fn all_corrupted(payloads: Seq<Seq<u8>>, checks: Seq<u8>) -> bool {
    &&& payloads.len() == checks.len()
    &&& forall|k: int| 0 <= k < payloads.len() ==> (#[trigger] payloads[k]).len() <= MAX_PAYLOAD
    &&& forall|k: int|
        0 <= k < payloads.len() ==> checks[k] != spec_checksum(packet_of(#[trigger] payloads[k]))
}

/// Frames with a checksum byte that does not match are forgiven as long
/// as the poll has seen no more than three of them: the machine waits for
/// sync bytes again and has counted each.
pub proof fn lemma_forgiven_failures(failures: nat, payloads: Seq<Seq<u8>>, checks: Seq<u8>)
    requires
        all_corrupted(payloads, checks),
        failures + payloads.len() <= MAX_CHECKSUM_FAILURES,
    ensures
        PollerModel::resynchronizing(failures).run(frames_reads(payloads, checks)) == (StepResult {
            next: PollerModel::resynchronizing(failures + payloads.len()),
            status: PollStatus::Pending,
        }),
    decreases payloads.len(),
{
    if payloads.len() > 0 {
        let head = payloads.drop_last();
        let head_checks = checks.drop_last();
        assert(all_corrupted(head, head_checks)) by {
            assert forall|k: int| 0 <= k < head.len() implies (#[trigger] head[k]).len()
                <= MAX_PAYLOAD && head_checks[k] != spec_checksum(packet_of(head[k])) by {
                assert(head[k] == payloads[k]);
                assert(head_checks[k] == checks[k]);
            }
        }
        lemma_forgiven_failures(failures, head, head_checks);
        assert(payloads.last() == payloads[payloads.len() - 1]);
        lemma_frame_reads(failures + head.len(), payloads.last(), checks.last());
        lemma_run_append(
            PollerModel::resynchronizing(failures),
            frames_reads(head, head_checks),
            frame_reads(payloads.last(), checks.last()),
        );
    }
}

/// A frame whose checksum byte matches, received after no more than three
/// frames whose checksum byte does not, ends the poll with `Done`; the
/// snapshot is then what the good frame decodes to, untouched by the
/// frames before it.
pub proof fn lemma_good_frame_after_failures(
    payloads: Seq<Seq<u8>>,
    checks: Seq<u8>,
    good: Seq<u8>,
    sensors: Sensors,
)
    requires
        all_corrupted(payloads, checks),
        payloads.len() <= MAX_CHECKSUM_FAILURES,
        good.len() <= MAX_PAYLOAD,
    ensures
        ({
            let reads = frames_reads(payloads, checks) + frame_reads(
                good,
                spec_checksum(packet_of(good)),
            );
            &&& PollerModel::fresh().run(reads) == StepResult {
                next: PollerModel::fresh(),
                status: PollStatus::Done,
            }
            &&& PollerModel::fresh().run_snapshot(reads, sensors) == parse_packet(
                packet_of(good),
                sensors,
            )
        }),
{
    let m0 = PollerModel::fresh();
    assert(m0 == PollerModel::resynchronizing(0));
    let bad = frames_reads(payloads, checks);
    let last = frame_reads(good, spec_checksum(packet_of(good)));
    lemma_forgiven_failures(0, payloads, checks);
    lemma_frame_reads(payloads.len(), good, spec_checksum(packet_of(good)));
    lemma_good_frame_is_decoded(payloads.len(), good, sensors);
    lemma_unfinished_poll_keeps_snapshot(m0, bad, sensors);
    lemma_run_append(m0, bad, last);
    lemma_run_snapshot_append(m0, bad, last, sensors);
}

/// Whether `input` delivers two bytes that are not the sync pair.
pub open spec fn is_garbage(input: PollInput) -> bool {
    &&& input is Bytes
    &&& input->Bytes_0.len() == 2
    &&& !(input->Bytes_0[0] == SYNC_0 && input->Bytes_0[1] == SYNC_1)
}

/// Pairs of bytes that are not the sync pair are passed over, however
/// many there are: the machine waits for sync bytes as before.
pub proof fn lemma_garbage_is_passed_over(failures: nat, garbage: Seq<PollInput>)
    requires
        forall|k: int| 0 <= k < garbage.len() ==> is_garbage(#[trigger] garbage[k]),
    ensures
        PollerModel::resynchronizing(failures).run(garbage) == (StepResult {
            next: PollerModel::resynchronizing(failures),
            status: PollStatus::Pending,
        }),
    decreases garbage.len(),
{
    if garbage.len() > 0 {
        let m = PollerModel::resynchronizing(failures);
        assert(is_garbage(garbage[0]));
        assert(m.step(garbage[0]).next == m);
        assert forall|k: int| 0 <= k < garbage.skip(1).len() implies is_garbage(
            #[trigger] garbage.skip(1)[k],
        ) by {
            assert(garbage.skip(1)[k] == garbage[k + 1]);
        }
        lemma_garbage_is_passed_over(failures, garbage.skip(1));
    }
}

/// A frame received after pairs of bytes that are not the sync pair is
/// taken as if nothing had come before it.
pub proof fn lemma_frame_after_garbage(
    failures: nat,
    garbage: Seq<PollInput>,
    payload: Seq<u8>,
    check: u8,
    sensors: Sensors,
)
    requires
        forall|k: int| 0 <= k < garbage.len() ==> is_garbage(#[trigger] garbage[k]),
    ensures
        PollerModel::resynchronizing(failures).run(garbage + frame_reads(payload, check))
            == PollerModel::resynchronizing(failures).run(frame_reads(payload, check)),
        PollerModel::resynchronizing(failures).run_snapshot(
            garbage + frame_reads(payload, check),
            sensors,
        ) == PollerModel::resynchronizing(failures).run_snapshot(
            frame_reads(payload, check),
            sensors,
        ),
{
    let m = PollerModel::resynchronizing(failures);
    lemma_garbage_is_passed_over(failures, garbage);
    lemma_unfinished_poll_keeps_snapshot(m, garbage, sensors);
    lemma_run_append(m, garbage, frame_reads(payload, check));
    lemma_run_snapshot_append(m, garbage, frame_reads(payload, check), sensors);
}

} // verus!
