//! The read sequence as a state machine.
//!
//! A read drives the line low to wake the sensor, releases it, waits for the
//! sensor's presence handshake, and then times 40 high pulses: a pulse longer
//! than [`ONE_THRESHOLD_US`] is a one bit, a shorter one a zero. Each wait
//! for a level polls once per microsecond within a fixed budget.
//!
//! [`Transfer`] makes every decision of that sequence. It issues one
//! [`Command`] at a time; whoever owns the pin and the delay carries it out
//! and reports back with an [`Event`], until a [`Command::Finish`] carries
//! the outcome.
use vstd::prelude::*;

use crate::decode::{evaluate_frame, frame_outcome, Model};
use crate::{DhtError, Reading};

verus! {

/// How long the line is held low to wake the sensor, in microseconds.
pub const WAKE_LOW_US: u32 = 3000;

/// How long the released line is left before the handshake, in microseconds.
pub const RELEASE_US: u32 = 25;

/// The budget for each of the two presence-handshake levels, in microseconds.
pub const PRESENCE_BUDGET_US: u32 = 85;

/// The budget for the line to rise at the start of a bit, in microseconds.
pub const BIT_START_BUDGET_US: u32 = 55;

/// The budget for a bit's high pulse to end, in microseconds.
pub const BIT_HIGH_BUDGET_US: u32 = 70;

/// A high pulse longer than this many microseconds is a one bit.
pub const ONE_THRESHOLD_US: u32 = 30;

/// The number of bits in a frame.
pub const FRAME_BITS: u32 = 40;

/// The number of level waits in a read: two for the handshake, two per bit.
pub const WAIT_COUNT: u32 = 82;

/// A logical level of the data line.
#[derive(Debug, Clone, Copy, PartialEq, Eq)]
pub enum Level {
    High,
    Low,
}

/// What the driver of the line is asked to do next.
#[derive(Debug)]
pub enum Command<HE> {
    /// Drive the line low.
    DriveLow,
    /// Drive the line high.
    DriveHigh,
    /// Busy-wait this many microseconds.
    Pause(u32),
    /// Report whether the line is at this level.
    Sample(Level),
    /// The read is over, with this outcome.
    Finish(Result<Reading, DhtError<HE>>),
}

/// What came of the last command.
#[derive(Debug)]
pub enum Event<HE> {
    /// The output or the pause completed.
    Done,
    /// The line was (`true`) or was not (`false`) at the level sampled.
    Sampled(bool),
    /// The pin failed.
    PinFault(HE),
}

/// Where a transfer stands; each phase names the command it awaits the
/// answer to.
#[derive(Debug, Clone, Copy, PartialEq, Eq)]
pub enum Phase {
    /// The line is being driven low.
    Wake,
    /// The wake-up pause is running.
    HoldLow,
    /// The line is being driven high.
    Release,
    /// The pause after the release is running.
    Settle,
    /// The line is being sampled for the level of the current wait.
    Sampling,
    /// The one-microsecond pause after a sample that missed the level.
    Backoff,
    /// The outcome has been handed out.
    Finished,
}

/// The state of a transfer, as plain values.
pub struct TransferView {
    pub model: Model,
    pub phase: Phase,
    /// Index of the current level wait, `0..WAIT_COUNT`.
    pub wait: nat,
    /// Microseconds spent so far in the current wait.
    pub elapsed: nat,
    /// The bits received so far, in order.
    pub bits: Seq<bool>,
}

/// The level that wait `w` looks for: the handshake waits for high then low,
/// and so does every bit.
pub open spec fn wait_level(w: nat) -> Level {
    if w % 2 == 0 {
        Level::High
    } else {
        Level::Low
    }
}

/// The budget of wait `w`, in microseconds.
pub open spec fn wait_budget(w: nat) -> nat {
    if w < 2 {
        PRESENCE_BUDGET_US as nat
    } else if w % 2 == 0 {
        BIT_START_BUDGET_US as nat
    } else {
        BIT_HIGH_BUDGET_US as nat
    }
}

/// The error a read ends with when wait `w` runs out of budget: the two
/// handshake waits mean the sensor is not there, a later one that the frame
/// broke off.
pub open spec fn expiry_error<HE>(w: nat) -> DhtError<HE> {
    if w < 2 {
        DhtError::NotPresent
    } else {
        DhtError::Timeout
    }
}

/// Whether wait `w` measures a bit's high pulse.
pub open spec fn measures_bit(w: nat) -> bool {
    w >= 3 && w % 2 == 1
}

/// The number of bits received before wait `w` starts.
pub open spec fn bits_before(w: nat) -> nat {
    if w < 3 {
        0
    } else {
        ((w - 2) / 2) as nat
    }
}

/// The bit that a high pulse of `elapsed` microseconds stands for.
pub open spec fn bit_of_pulse(elapsed: nat) -> bool {
    elapsed > ONE_THRESHOLD_US
}

/// The value of a run of bits, most significant bit first.
pub open spec fn byte_value(bits: Seq<bool>) -> nat
    decreases bits.len(),
{
    if bits.len() == 0 {
        0
    } else {
        2 * byte_value(bits.drop_last()) + if bits.last() {
            1nat
        } else {
            0nat
        }
    }
}

/// The five bytes that 40 bits make: bit `i` is bit `7 - i % 8` of byte
/// `i / 8`.
pub open spec fn frame_of(bits: Seq<bool>) -> Seq<u8> {
    Seq::new(5, |j: int| byte_value(bits.subrange(8 * j, 8 * j + 8)) as u8)
}

impl TransferView {
    /// The state a transfer starts in.
    pub open spec fn initial(model: Model) -> TransferView {
        TransferView { model, phase: Phase::Wake, wait: 0, elapsed: 0, bits: Seq::empty() }
    }

    /// The invariant of an unfinished transfer.
    pub open spec fn wf(self) -> bool {
        self.phase !is Finished ==> {
            &&& self.wait < WAIT_COUNT
            &&& self.elapsed <= wait_budget(self.wait)
            &&& self.bits.len() == bits_before(self.wait)
            &&& !(self.phase is Sampling || self.phase is Backoff) ==> self.wait == 0
        }
    }

    /// Whether `ev` answers the command this state awaits. A pause cannot
    /// fail; an output or a sample can.
    pub open spec fn accepts<HE>(self, ev: Event<HE>) -> bool {
        match self.phase {
            Phase::Wake | Phase::Release => ev is Done || ev is PinFault,
            Phase::HoldLow | Phase::Settle | Phase::Backoff => ev is Done,
            Phase::Sampling => ev is Sampled || ev is PinFault,
            Phase::Finished => false,
        }
    }

    /// The state that wait `w` starts in, with the bits `bits`.
    pub open spec fn sampling(self, w: nat, elapsed: nat, bits: Seq<bool>) -> TransferView {
        TransferView { model: self.model, phase: Phase::Sampling, wait: w, elapsed, bits }
    }

    /// This state in another phase.
    pub open spec fn in_phase(self, phase: Phase) -> TransferView {
        TransferView { phase, ..self }
    }

    /// The step taken when the level of the current wait has been seen after
    /// `self.elapsed` microseconds.
    pub open spec fn completes_wait<HE>(self, next: TransferView, cmd: Command<HE>) -> bool {
        let bits = if measures_bit(self.wait) {
            self.bits.push(bit_of_pulse(self.elapsed))
        } else {
            self.bits
        };
        if self.wait + 1 == WAIT_COUNT {
            &&& next.phase is Finished
            &&& cmd matches Command::Finish(r) && frame_outcome(self.model, frame_of(bits), r)
        } else {
            &&& next == self.sampling(self.wait + 1, 0, bits)
            &&& cmd == Command::<HE>::Sample(wait_level(self.wait + 1))
        }
    }

    /// The transition of the read sequence: answered by `ev`, this state
    /// moves to `next` and issues `cmd`.
    pub open spec fn advances<HE>(self, ev: Event<HE>, next: TransferView, cmd: Command<HE>) -> bool {
        match ev {
            Event::PinFault(e) => {
                &&& next.phase is Finished
                &&& cmd == Command::Finish(Err::<Reading, DhtError<HE>>(DhtError::PinError(e)))
            },
            Event::Sampled(ready) => if ready {
                self.completes_wait(next, cmd)
            } else {
                &&& next == self.in_phase(Phase::Backoff)
                &&& cmd == Command::<HE>::Pause(1)
            },
            Event::Done => match self.phase {
                Phase::Wake => next == self.in_phase(Phase::HoldLow) && cmd == Command::<HE>::Pause(
                    WAKE_LOW_US,
                ),
                Phase::HoldLow => next == self.in_phase(Phase::Release) && cmd
                    == Command::<HE>::DriveHigh,
                Phase::Release => next == self.in_phase(Phase::Settle) && cmd == Command::<HE>::Pause(
                    RELEASE_US,
                ),
                Phase::Settle => next == self.sampling(0, 0, self.bits) && cmd == Command::<HE>::Sample(
                    wait_level(0),
                ),
                Phase::Backoff => if self.elapsed < wait_budget(self.wait) {
                    &&& next == self.sampling(self.wait, self.elapsed + 1, self.bits)
                    &&& cmd == Command::<HE>::Sample(wait_level(self.wait))
                } else {
                    &&& next.phase is Finished
                    &&& cmd == Command::Finish(Err::<Reading, DhtError<HE>>(expiry_error(self.wait)))
                },
                _ => false,
            },
        }
    }
}

/// The mutable state behind a [`Transfer`].
struct Cursor {
    model: Model,
    phase: Phase,
    wait: u32,
    elapsed: u32,
    bits: Vec<bool>,
}

impl Cursor {
    /// A cursor whose read is over; it holds no bits.
    fn finished(model: Model) -> (r: Cursor)
        ensures
            r.state().phase is Finished,
            r.state().model == model,
    {
        Cursor { model, phase: Phase::Finished, wait: 0, elapsed: 0, bits: Vec::new() }
    }

    spec fn state(&self) -> TransferView {
        TransferView {
            model: self.model,
            phase: self.phase,
            wait: self.wait as nat,
            elapsed: self.elapsed as nat,
            bits: self.bits@,
        }
    }
}

/// One read in progress.
pub struct Transfer {
    cursor: Cursor,
}

impl View for Transfer {
    type V = TransferView;

    closed spec fn view(&self) -> TransferView {
        self.cursor.state()
    }
}

fn level_of_wait(w: u32) -> (r: Level)
    ensures
        r == wait_level(w as nat),
{
    if w % 2 == 0 {
        Level::High
    } else {
        Level::Low
    }
}

fn budget_of_wait(w: u32) -> (r: u32)
    ensures
        r as nat == wait_budget(w as nat),
{
    if w < 2 {
        PRESENCE_BUDGET_US
    } else if w % 2 == 0 {
        BIT_START_BUDGET_US
    } else {
        BIT_HIGH_BUDGET_US
    }
}

fn error_of_expiry<HE>(w: u32) -> (r: DhtError<HE>)
    ensures
        r == expiry_error::<HE>(w as nat),
{
    if w < 2 {
        DhtError::NotPresent
    } else {
        DhtError::Timeout
    }
}

/// `2` to the power `k`.
pub open spec fn two_to(k: nat) -> nat
    decreases k,
{
    if k == 0 {
        1
    } else {
        2 * two_to((k - 1) as nat)
    }
}

/// Powers of two grow with the exponent.
proof fn lemma_two_to_monotonic(a: nat, b: nat)
    requires
        a <= b,
    ensures
        two_to(a) <= two_to(b),
    decreases b,
{
    if a < b {
        lemma_two_to_monotonic(a, (b - 1) as nat);
    }
}

/// Packs the eight bits from `start` into a byte, most significant bit first.
pub fn pack_byte(bits: &Vec<bool>, start: usize) -> (r: u8)
    requires
        start + 8 <= bits@.len(),
    ensures
        r as nat == byte_value(bits@.subrange(start as int, start + 8)),
{
    let mut acc: u8 = 0;
    let mut k: usize = 0;
    while k < 8
        invariant
            k <= 8,
            start + 8 <= bits.len(),
            acc as nat == byte_value(bits@.subrange(start as int, start + k)),
            acc < two_to(k as nat),
        decreases 8 - k,
    {
        let ghost before = bits@.subrange(start as int, start + k);
        let ghost after = bits@.subrange(start as int, start + k + 1);
        assert(after.drop_last() =~= before);
        assert(after.last() == bits@[start + k]);
        proof {
            lemma_two_to_monotonic(k as nat, 7);
            reveal_with_fuel(two_to, 8);
        }
        let bit: u8 = if bits[start + k] {
            1
        } else {
            0
        };
        acc = acc * 2 + bit;
        k = k + 1;
    }
    acc
}

/// Packs 40 received bits into the five bytes of a frame.
pub fn pack_frame(bits: &Vec<bool>) -> (r: [u8; 5])
    requires
        bits@.len() == FRAME_BITS,
    ensures
        r@ == frame_of(bits@),
{
    let r = [
        pack_byte(bits, 0),
        pack_byte(bits, 8),
        pack_byte(bits, 16),
        pack_byte(bits, 24),
        pack_byte(bits, 32),
    ];
    assert(r@ =~= frame_of(bits@));
    r
}

impl Transfer {
    #[verifier::type_invariant]
    spec fn well_formed(self) -> bool {
        self.cursor.state().wf()
    }

    /// Starts a read of a sensor of the given model; the first command is
    /// always to drive the line low.
    pub fn start<HE>(model: Model) -> (r: (Transfer, Command<HE>))
        ensures
            r.0@ == TransferView::initial(model),
            r.0@.wf(),
            r.1 == Command::<HE>::DriveLow,
    {
        let cursor = Cursor { model, phase: Phase::Wake, wait: 0, elapsed: 0, bits: Vec::new() };
        assert(cursor.state().bits =~= Seq::<bool>::empty());
        (Transfer { cursor }, Command::DriveLow)
    }

    /// The model this transfer decodes for.
    pub fn model(&self) -> (r: Model)
        ensures
            r == self@.model,
    {
        self.cursor.model
    }

    /// Whether the read is over.
    pub fn is_finished(&self) -> (r: bool)
        ensures
            r == (self@.phase is Finished),
    {
        matches!(self.cursor.phase, Phase::Finished)
    }

    /// Whether `ev` answers the command this transfer is waiting on.
    pub fn accepts<HE>(&self, ev: &Event<HE>) -> (r: bool)
        ensures
            r == self@.accepts(*ev),
    {
        match self.cursor.phase {
            Phase::Wake | Phase::Release => matches!(ev, Event::Done | Event::PinFault(_)),
            Phase::HoldLow | Phase::Settle | Phase::Backoff => matches!(ev, Event::Done),
            Phase::Sampling => matches!(ev, Event::Sampled(_) | Event::PinFault(_)),
            Phase::Finished => false,
        }
    }

    /// Takes the answer to the last command and returns the next one.
    pub fn resume<HE>(&mut self, ev: Event<HE>) -> (cmd: Command<HE>)
        requires
            old(self)@.accepts(ev),
        ensures
            final(self)@.wf(),
            final(self)@.model == old(self)@.model,
            old(self)@.advances(ev, final(self)@, cmd),
    {
        proof {
            use_type_invariant(&*self);
        }
        let mut cursor = Cursor::finished(self.cursor.model);
        core::mem::swap(&mut self.cursor, &mut cursor);
        let cmd = cursor.advance(ev);
        self.cursor = cursor;
        cmd
    }
}

impl Cursor {
    /// Takes the answer to the last command and returns the next one.
    fn advance<HE>(&mut self, ev: Event<HE>) -> (cmd: Command<HE>)
        requires
            old(self).state().wf(),
            old(self).state().accepts(ev),
        ensures
            final(self).state().wf(),
            final(self).state().model == old(self).state().model,
            old(self).state().advances(ev, final(self).state(), cmd),
    {
        match ev {
            Event::PinFault(e) => {
                self.phase = Phase::Finished;
                Command::Finish(Err(DhtError::PinError(e)))
            },
            Event::Sampled(ready) => {
                if ready {
                    self.complete_wait()
                } else {
                    self.phase = Phase::Backoff;
                    Command::Pause(1)
                }
            },
            Event::Done => match self.phase {
                Phase::Wake => {
                    self.phase = Phase::HoldLow;
                    Command::Pause(WAKE_LOW_US)
                },
                Phase::HoldLow => {
                    self.phase = Phase::Release;
                    Command::DriveHigh
                },
                Phase::Release => {
                    self.phase = Phase::Settle;
                    Command::Pause(RELEASE_US)
                },
                Phase::Settle => {
                    self.phase = Phase::Sampling;
                    self.wait = 0;
                    self.elapsed = 0;
                    Command::Sample(level_of_wait(0))
                },
                _ => {
                    if self.elapsed < budget_of_wait(self.wait) {
                        self.phase = Phase::Sampling;
                        self.elapsed = self.elapsed + 1;
                        Command::Sample(level_of_wait(self.wait))
                    } else {
                        self.phase = Phase::Finished;
                        Command::Finish(Err(error_of_expiry(self.wait)))
                    }
                },
            },
        }
    }

    /// The level of the current wait has been seen: records the bit that a
    /// high pulse stands for and moves on to the next wait, or ends the read
    /// with the outcome of the frame.
    fn complete_wait<HE>(&mut self) -> (cmd: Command<HE>)
        requires
            old(self).state().wf(),
            old(self).state().phase is Sampling,
        ensures
            final(self).state().wf(),
            final(self).state().model == old(self).state().model,
            old(self).state().completes_wait(final(self).state(), cmd),
    {
        if self.wait >= 3 && self.wait % 2 == 1 {
            self.bits.push(self.elapsed > ONE_THRESHOLD_US);
        }
        if self.wait + 1 == WAIT_COUNT {
            self.phase = Phase::Finished;
            let frame = pack_frame(&self.bits);
            Command::Finish(evaluate_frame(self.model, frame))
        } else {
            self.wait = self.wait + 1;
            self.elapsed = 0;
            self.phase = Phase::Sampling;
            Command::Sample(level_of_wait(self.wait))
        }
    }
}

/// The presence handshake can only fail as `NotPresent`: a handshake wait
/// that runs out of budget ends the read with `NotPresent`, and no step taken
/// during the handshake ends it with `Timeout`.
pub proof fn handshake_failure_is_not_present<HE>(
    v: TransferView,
    ev: Event<HE>,
    next: TransferView,
    cmd: Command<HE>,
)
    requires
        v.wf(),
        v.accepts(ev),
        v.phase is Sampling || v.phase is Backoff,
        v.wait < 2,
        v.advances(ev, next, cmd),
    ensures
        cmd != Command::Finish(Err::<Reading, DhtError<HE>>(DhtError::Timeout)),
        v.phase is Backoff && v.elapsed == wait_budget(v.wait) ==> cmd == Command::Finish(
            Err::<Reading, DhtError<HE>>(DhtError::NotPresent),
        ),
{
}

/// A wait inside the frame can only expire as `Timeout`: one that runs out of
/// budget ends the read with `Timeout`, and no step taken while sampling the
/// bits ends it with `NotPresent`.
pub proof fn bit_failure_is_timeout<HE>(
    v: TransferView,
    ev: Event<HE>,
    next: TransferView,
    cmd: Command<HE>,
)
    requires
        v.wf(),
        v.accepts(ev),
        v.phase is Sampling || v.phase is Backoff,
        v.wait >= 2,
        v.advances(ev, next, cmd),
    ensures
        cmd != Command::Finish(Err::<Reading, DhtError<HE>>(DhtError::NotPresent)),
        v.phase is Backoff && v.elapsed == wait_budget(v.wait) ==> cmd == Command::Finish(
            Err::<Reading, DhtError<HE>>(DhtError::Timeout),
        ),
{
}

} // verus!
