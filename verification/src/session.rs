//! The command session: pin operations, the poll loop and the hand-over to
//! streaming, as a machine that tells its caller what to do on the transport
//! and is told what came of it.

use crate::command::{
    encode_pwm, encode_read, encode_stream, encode_write, pwm_command, read_command,
    stream_command, write_command,
};
use crate::line::ProtocolError;
use crate::pwm_streamer::{PwmStreamMode, PwmStreamer};
use crate::store::{absorbed, line_feeds, owed, records, Tables};
use crate::values::{PinInput, PinValueRead, PinValueWrite};
use vstd::prelude::*;

verus! {

/// The number of pins of the boards this protocol was made for.
pub const DEFAULT_PINS: usize = 256;

/// What the caller has to do on the transport next.
pub enum Request {
    /// Write all of these bytes, then answer `Reply::Sent`.
    Send(Vec<u8>),
    /// Answer with the number of bytes that wait to be read.
    Buffered,
    /// Read exactly one byte.
    ReadByte,
    /// Read what is there, blocking for at least one byte.
    ReadChunk,
    /// The operation is complete.
    Finished,
}

/// A request as a mathematical value.
pub enum Ask {
    Send(Seq<u8>),
    Buffered,
    ReadByte,
    ReadChunk,
    Finished,
}

impl View for Request {
    type V = Ask;

    open spec fn view(&self) -> Ask {
        match self {
            Request::Send(v) => Ask::Send(v@),
            Request::Buffered => Ask::Buffered,
            Request::ReadByte => Ask::ReadByte,
            Request::ReadChunk => Ask::ReadChunk,
            Request::Finished => Ask::Finished,
        }
    }
}

/// What the transport did for the last request.
pub enum Reply {
    Sent,
    Buffered(u32),
    Byte(u8),
    Chunk(Vec<u8>),
}

/// The confirmation that an operation waits for.
#[derive(Clone, Copy, PartialEq, Eq, Structural, Debug)]
pub enum Goal {
    Nothing,
    /// The pin's confirmed state answers the written value.
    Written(usize, PinValueWrite),
    /// The pin's confirmed state is of the kind that was asked for.
    Answered(usize, PinInput),
    /// The confirmed PWM frequency and resolution are these.
    Pwm(u32, u8),
    /// The device's banner was seen.
    Greeted,
}

/// Where the machine stands; each phase but `Idle` awaits one kind of reply.
#[derive(Clone, Copy, PartialEq, Eq, Structural, Debug)]
pub enum Phase {
    Idle,
    /// A command is out; awaits `Sent`.
    Sending,
    /// Awaits the number of buffered bytes.
    Polling,
    /// Awaits the first byte of a burst.
    Heading,
    /// Awaits more bytes of a burst.
    Assembling,
    /// The stream command is out; awaits `Sent`.
    Handoff,
}

/// Whether the confirmed state satisfies a goal.
pub open spec fn goal_met(t: &Tables, g: Goal) -> bool {
    match g {
        Goal::Nothing => true,
        Goal::Written(p, v) => p < t.actual.pins.len() && t.actual.pins[p as int].spec_matches(v),
        Goal::Answered(p, k) => p < t.actual.pins.len() && t.actual.pins[p as int].spec_matches_in(
            k,
        ),
        Goal::Pwm(f, r) => t.actual.pwmfreq == f && t.actual.pwmres == r,
        Goal::Greeted => t.greeted,
    }
}

/// A goal to see a digital level confirmed is met only by that very level,
/// which is also what a pull-down or pull-up read asks for.
pub proof fn lemma_confirmed_write_answers_read(t: &Tables, pin: usize, v: bool)
    requires
        goal_met(t, Goal::Written(pin, PinValueWrite::Digital(v))),
    ensures
        t.actual.pins[pin as int] == PinValueRead::Digital(v),
        t.actual.pins[pin as int].spec_matches(PinValueWrite::Digital(v)),
        goal_met(t, Goal::Answered(pin, PinInput::PDown)),
        goal_met(t, Goal::Answered(pin, PinInput::PUp)),
{
}

/// A goal to see the PWM parameters confirmed is met only when both are.
pub proof fn lemma_pwm_goal_needs_both(t: &Tables, freq: u32, res: u8)
    ensures
        goal_met(t, Goal::Pwm(freq, res)) <==> (t.actual.pwmfreq == freq && t.actual.pwmres
            == res),
{
}

/// The outcome of a step with its request taken as a mathematical value.
pub open spec fn asked(r: Result<Request, ProtocolError>) -> Result<Ask, ProtocolError> {
    match r {
        Ok(q) => Ok(q@),
        Err(e) => Err(e),
    }
}

/// A command session of the device.
pub struct PicoGPIO {
    pub tables: Tables,
    pub phase: Phase,
    pub goal: Goal,
    /// The read command that follows the drain in progress.
    pub pending: Option<(usize, PinInput)>,
    /// Line count of the drain that follows a command; none where no drain
    /// follows it.
    pub settle: Option<usize>,
    /// The stream to start once the goal is reached.
    pub handoff: Option<(usize, PwmStreamMode)>,
    /// The intended PWM resolution from before the hand-over in progress:
    /// what the session goes back to where the hand-over fails.
    pub fallback: Option<u8>,
    /// The stream that was started.
    pub started: Option<PwmStreamMode>,
    pub min_lines: usize,
    pub line: Vec<u8>,
}

impl PicoGPIO {
    /// Both tables have an entry for every pin, and the stream command is
    /// out only where the PWM setup before it was confirmed.
    pub open spec fn wf(&self) -> bool {
        &&& self.tables.wf()
        &&& self.phase == Phase::Handoff ==> self.handoff is Some && goal_met(
            &self.tables,
            self.goal,
        )
    }

    /// No stream was started: the session still takes commands.
    pub open spec fn commanding(&self) -> bool {
        self.started is None
    }

    /// The number of pins.
    pub open spec fn pins(&self) -> nat {
        self.tables.pins()
    }

    /// The mode of the stream that is to be started.
    pub open spec fn handoff_mode(&self) -> Option<PwmStreamMode> {
        match self.handoff {
            Some((_, mode)) => Some(mode),
            None => None,
        }
    }

    /// The machine after a goal was checked: finished or handing over where
    /// it is met, one more line to drain where it is not.
    pub open spec fn resolved(&self, pre: &PicoGPIO, ask: Ask) -> bool {
        &&& self.tables == pre.tables
        &&& self.pending == pre.pending
        &&& self.line == pre.line
        &&& if goal_met(&pre.tables, pre.goal) {
            match pre.handoff {
                Some((pin, mode)) => self.phase == Phase::Handoff && ask == Ask::Send(
                    stream_command(pin, mode),
                ) && self.min_lines == pre.min_lines,
                None => self.phase == Phase::Idle && ask == Ask::Finished && self.min_lines
                    == pre.min_lines,
            }
        } else {
            self.phase == Phase::Polling && ask == Ask::Buffered && self.min_lines == 1
        }
    }

    /// The machine after a command was written.
    pub open spec fn after_command(&self, pre: &PicoGPIO, ask: Ask) -> bool {
        match pre.settle {
            Some(n) => {
                &&& self.tables == pre.tables
                &&& self.pending == pre.pending
                &&& self.line == pre.line
                &&& self.phase == Phase::Polling
                &&& self.min_lines == n
                &&& ask == Ask::Buffered
            },
            None => self.resolved(pre, ask),
        }
    }

    /// The machine after a drain came to its end.
    pub open spec fn after_drain(&self, pre: &PicoGPIO, ask: Ask) -> bool {
        match pre.pending {
            Some((pin, kind)) => {
                &&& self.tables == pre.tables
                &&& self.pending is None
                &&& self.line == pre.line
                &&& self.phase == Phase::Sending
                &&& self.min_lines == pre.min_lines
                &&& ask == Ask::Send(read_command(pin, kind))
            },
            None => self.resolved(pre, ask),
        }
    }

    /// The machine after more bytes of a burst arrived.
    pub open spec fn after_chunk(
        &self,
        pre: &PicoGPIO,
        chunk: Seq<u8>,
        r: Result<Ask, ProtocolError>,
    ) -> bool {
        let whole = pre.line@ + chunk;
        let outcome = absorbed(pre.tables.confirmed(), records(whole));
        if whole.len() > 0 && whole.last() == 10 {
            &&& self.tables.confirmed() == outcome.0
            &&& self.pending == pre.pending
            &&& match outcome.1 {
                None => {
                    &&& r == Ok::<Ask, ProtocolError>(Ask::Buffered)
                    &&& self.phase == Phase::Polling
                    &&& self.min_lines == owed(pre.min_lines, line_feeds(whole) as int)
                    &&& self.line@ == Seq::<u8>::empty()
                },
                Some(e) => r == Err::<Ask, ProtocolError>(e) && self.phase == Phase::Idle,
            }
        } else {
            &&& self.tables == pre.tables
            &&& self.pending == pre.pending
            &&& self.line@ == whole
            &&& self.phase == Phase::Assembling
            &&& self.min_lines == pre.min_lines
            &&& r == Ok::<Ask, ProtocolError>(Ask::ReadChunk)
        }
    }

    /// A session for `pins` pins, and the request that opens it: the
    /// greeting goes out, pending input is drained, and the opening lasts
    /// until the device's banner was seen. Every pin is floating and
    /// unconfirmed, and no version is known yet.
    pub fn new(pins: usize) -> (r: (PicoGPIO, Request))
        ensures
            r.0.wf(),
            r.0.pins() == pins,
            r.0.phase == Phase::Sending,
            r.0.goal == Goal::Greeted,
            r.0.settle == Some(0usize),
            r.0.pending is None,
            r.0.handoff is None,
            r.0.fallback is None,
            r.0.commanding(),
            r.1@ == Ask::Send(seq![13u8, 10u8]),
            r.0.tables.version == crate::values::PicoGPIOVersion::Unknown,
            !r.0.tables.greeted,
            r.0.tables.blocking,
            forall|p: int| 0 <= p < pins ==> r.0.tables.intended.pins[p] == PinValueWrite::Floating,
            forall|p: int|
                0 <= p < pins ==> r.0.tables.actual.pins[p] == PinValueRead::Floating(None),
            r.0.tables.intended.pwmfreq == 0 && r.0.tables.intended.pwmres == 8
                && r.0.tables.intended.inares == 10 && !r.0.tables.intended.streaming,
            r.0.tables.actual.pwmfreq == 0 && r.0.tables.actual.pwmres == 8
                && r.0.tables.actual.inares == 10 && !r.0.tables.actual.streaming,
    {
        let session = PicoGPIO {
            tables: Tables::new(pins),
            phase: Phase::Sending,
            goal: Goal::Greeted,
            pending: None,
            settle: Some(0),
            handoff: None,
            fallback: None,
            started: None,
            min_lines: 0,
            line: Vec::new(),
        };
        (session, Request::Send(PicoGPIO::greeting()))
    }

    /// Whether the confirmed state satisfies the goal of the operation in
    /// progress.
    pub fn goal_reached(&self) -> (r: bool)
        requires
            self.tables.wf(),
        ensures
            r == goal_met(&self.tables, self.goal),
    {
        match self.goal {
            Goal::Nothing => true,
            Goal::Written(p, v) => p < self.tables.actual.pins.len()
                && self.tables.actual.pins[p].matches(&v),
            Goal::Answered(p, k) => p < self.tables.actual.pins.len()
                && self.tables.actual.pins[p].matches_in(&k),
            Goal::Pwm(f, r) => self.tables.actual.pwmfreq == f && self.tables.actual.pwmres == r,
            Goal::Greeted => self.tables.greeted,
        }
    }

    /// Checks the goal and says what follows.
    fn resolve(&mut self) -> (q: Request)
        requires
            old(self).tables.wf(),
        ensures
            final(self).wf(),
            final(self).goal == old(self).goal,
            final(self).handoff == old(self).handoff,
            final(self).fallback == old(self).fallback,
            final(self).settle == old(self).settle,
            final(self).started == old(self).started,
            final(self).resolved(old(self), q@),
    {
        if self.goal_reached() {
            match self.handoff {
                Some((pin, mode)) => {
                    self.phase = Phase::Handoff;
                    Request::Send(encode_stream(pin, mode))
                },
                None => {
                    self.phase = Phase::Idle;
                    Request::Finished
                },
            }
        } else {
            self.phase = Phase::Polling;
            self.min_lines = 1;
            Request::Buffered
        }
    }

    /// The machine after one answer of the transport: for each phase and each
    /// kind of answer, what the session has become and what it asks next.
    /// The goal and the intended table never change; an answer of a kind that
    /// was not asked for changes nothing.
    pub open spec fn stepped(
        &self,
        pre: &PicoGPIO,
        reply: Reply,
        r: Result<Ask, ProtocolError>,
    ) -> bool {
        &&& self.tables.intended == pre.tables.intended
        &&& self.tables.blocking == pre.tables.blocking
        &&& self.goal == pre.goal
        &&& self.handoff == pre.handoff
        &&& self.settle == pre.settle
        &&& pre.phase != Phase::Handoff ==> self.fallback == pre.fallback
        &&& r == Ok::<Ask, ProtocolError>(Ask::Finished) ==> self.phase == Phase::Idle && goal_met(
            &self.tables,
            self.goal,
        )
        &&& match (pre.phase, reply) {
            (Phase::Sending, Reply::Sent) => {
                &&& r is Ok
                &&& self.after_command(pre, r->Ok_0)
                &&& self.started == pre.started
            },
            (Phase::Handoff, Reply::Sent) => {
                &&& r == Ok::<Ask, ProtocolError>(Ask::Finished)
                &&& self.tables == pre.tables
                &&& self.started == pre.handoff_mode()
                &&& self.fallback is None
            },
            (Phase::Polling, Reply::Buffered(n)) => {
                &&& self.started == pre.started
                &&& if n == 0 && pre.min_lines == 0 {
                    r is Ok && self.after_drain(pre, r->Ok_0)
                } else {
                    &&& r == Ok::<Ask, ProtocolError>(Ask::ReadByte)
                    &&& self.phase == Phase::Heading
                    &&& self.tables == pre.tables
                    &&& self.min_lines == pre.min_lines
                    &&& self.pending == pre.pending
                }
            },
            (Phase::Heading, Reply::Byte(b)) => {
                &&& r == Ok::<Ask, ProtocolError>(Ask::ReadChunk)
                &&& self.phase == Phase::Assembling
                &&& self.line@ == seq![b]
                &&& self.tables == pre.tables
                &&& self.min_lines == pre.min_lines
                &&& self.pending == pre.pending
                &&& self.started == pre.started
            },
            (Phase::Assembling, Reply::Chunk(v)) => {
                &&& self.started == pre.started
                &&& self.after_chunk(pre, v@, r)
            },
            _ => r == Err::<Ask, ProtocolError>(ProtocolError::OutOfTurn) && self == pre,
        }
    }

    /// Takes the transport's answer to the last request and says what to do
    /// next. An answer of the wrong kind changes nothing and is refused.
    pub fn step(&mut self, reply: Reply) -> (r: Result<Request, ProtocolError>)
        requires
            old(self).wf(),
        ensures
            final(self).wf(),
            final(self).stepped(old(self), reply, asked(r)),
    {
        match (self.phase, reply) {
            (Phase::Sending, Reply::Sent) => {
                match self.settle {
                    Some(n) => {
                        self.phase = Phase::Polling;
                        self.min_lines = n;
                        Ok(Request::Buffered)
                    },
                    None => Ok(self.resolve()),
                }
            },
            (Phase::Handoff, Reply::Sent) => {
                match self.handoff {
                    Some((_, mode)) => {
                        self.started = Some(mode);
                        self.fallback = None;
                    },
                    None => {},
                }
                self.phase = Phase::Idle;
                Ok(Request::Finished)
            },
            (Phase::Polling, Reply::Buffered(n)) => {
                if n == 0 && self.min_lines == 0 {
                    match self.pending {
                        Some((pin, kind)) => {
                            self.pending = None;
                            self.phase = Phase::Sending;
                            Ok(Request::Send(encode_read(pin, kind)))
                        },
                        None => Ok(self.resolve()),
                    }
                } else {
                    self.phase = Phase::Heading;
                    Ok(Request::ReadByte)
                }
            },
            (Phase::Heading, Reply::Byte(b)) => {
                let mut line: Vec<u8> = Vec::new();
                line.push(b);
                self.line = line;
                self.phase = Phase::Assembling;
                Ok(Request::ReadChunk)
            },
            (Phase::Assembling, Reply::Chunk(v)) => {
                let mut chunk = v;
                self.line.append(&mut chunk);
                let n = self.line.len();
                if n > 0 && self.line[n - 1] == 10 {
                    let outcome = self.tables.absorb(self.line.as_slice(), self.min_lines);
                    match outcome {
                        Ok(left) => {
                            self.min_lines = left;
                            self.line = Vec::new();
                            self.phase = Phase::Polling;
                            Ok(Request::Buffered)
                        },
                        Err(e) => {
                            self.phase = Phase::Idle;
                            Err(e)
                        },
                    }
                } else {
                    Ok(Request::ReadChunk)
                }
            },
            _ => Err(ProtocolError::OutOfTurn),
        }
    }

    /// The machine at the start of an operation: the task is as given, and
    /// nothing that the device confirmed has changed.
    pub open spec fn begun(
        &self,
        pre: &PicoGPIO,
        phase: Phase,
        goal: Goal,
        pending: Option<(usize, PinInput)>,
        settle: Option<usize>,
        handoff: Option<(usize, PwmStreamMode)>,
    ) -> bool {
        &&& self.phase == phase
        &&& self.goal == goal
        &&& self.pending == pending
        &&& self.settle == settle
        &&& self.handoff == handoff
        &&& self.fallback == match handoff {
            Some(_) => Some(pre.tables.intended.pwmres),
            None => None,
        }
        &&& self.started == pre.started
        &&& self.tables.actual == pre.tables.actual
        &&& self.tables.version == pre.tables.version
        &&& self.tables.greeted == pre.tables.greeted
        &&& self.tables.blocking == pre.tables.blocking
        &&& self.tables.intended.inares == pre.tables.intended.inares
        &&& self.tables.intended.streaming == pre.tables.intended.streaming
    }

    /// The bytes that open a session on a fresh transport.
    pub fn greeting() -> (out: Vec<u8>)
        ensures
            out@ == seq![13u8, 10u8],
    {
        let mut out: Vec<u8> = Vec::new();
        out.push(13);
        out.push(10);
        out
    }

    /// Starts a drain: input is taken until none waits and `min_lines` lines
    /// were seen.
    pub fn poll(&mut self, min_lines: usize) -> (q: Request)
        requires
            old(self).wf(),
            old(self).commanding(),
        ensures
            final(self).wf(),
            final(self).begun(old(self), Phase::Polling, Goal::Nothing, None, None, None),
            final(self).tables.intended == old(self).tables.intended,
            final(self).min_lines == min_lines,
            q@ == Ask::Buffered,
    {
        self.phase = Phase::Polling;
        self.goal = Goal::Nothing;
        self.pending = None;
        self.settle = None;
        self.handoff = None;
        self.fallback = None;
        self.min_lines = min_lines;
        Request::Buffered
    }

    /// Starts a write: the intended state of the pin becomes `value` at once,
    /// the command goes out, pending input is drained, and with `block` the
    /// operation lasts until the device confirms the value.
    pub fn set_manual(&mut self, pin: usize, value: PinValueWrite, block: bool) -> (q: Request)
        requires
            old(self).wf(),
            old(self).commanding(),
            pin < old(self).pins(),
        ensures
            final(self).wf(),
            final(self).begun(
                old(self),
                Phase::Sending,
                if block {
                    Goal::Written(pin, value)
                } else {
                    Goal::Nothing
                },
                None,
                Some(0usize),
                None,
            ),
            final(self).tables.intended.pins@ == old(self).tables.intended.pins@.update(
                pin as int,
                value,
            ),
            final(self).tables.intended.pwmfreq == old(self).tables.intended.pwmfreq,
            final(self).tables.intended.pwmres == old(self).tables.intended.pwmres,
            q@ == Ask::Send(write_command(pin, value)),
    {
        self.tables.intended.pins.set(pin, value);
        self.phase = Phase::Sending;
        self.goal = if block { Goal::Written(pin, value) } else { Goal::Nothing };
        self.pending = None;
        self.settle = Some(0);
        self.handoff = None;
        self.fallback = None;
        Request::Send(encode_write(pin, value))
    }

    /// Starts a read. With `cached` nothing is done at all. Otherwise the pin
    /// is marked floating, pending input is drained, the read command goes
    /// out, with `block` one line is awaited, and the operation lasts until
    /// the confirmed state is of the kind asked for. The reading is then had
    /// from `reading`.
    pub fn get_manual(&mut self, pin: usize, kind: PinInput, cached: bool, block: bool) -> (q:
        Request)
        requires
            old(self).wf(),
            old(self).commanding(),
            pin < old(self).pins(),
        ensures
            final(self).wf(),
            cached ==> *final(self) == *old(self) && q@ == Ask::Finished,
            !cached ==> {
                &&& final(self).begun(
                    old(self),
                    Phase::Polling,
                    Goal::Answered(pin, kind),
                    Some((pin, kind)),
                    if block {
                        Some(1usize)
                    } else {
                        None
                    },
                    None,
                )
                &&& final(self).tables.intended.pins@ == old(self).tables.intended.pins@.update(
                    pin as int,
                    PinValueWrite::Floating,
                )
                &&& final(self).tables.intended.pwmfreq == old(self).tables.intended.pwmfreq
                &&& final(self).tables.intended.pwmres == old(self).tables.intended.pwmres
                &&& final(self).min_lines == 0
                &&& q@ == Ask::Buffered
            },
    {
        if cached {
            return Request::Finished;
        }
        self.tables.intended.pins.set(pin, PinValueWrite::Floating);
        self.phase = Phase::Polling;
        self.goal = Goal::Answered(pin, kind);
        self.pending = Some((pin, kind));
        self.settle = if block { Some(1) } else { None };
        self.handoff = None;
        self.fallback = None;
        self.min_lines = 0;
        Request::Buffered
    }

    /// The confirmed state of a pin.
    pub fn reading(&self, pin: usize) -> (v: PinValueRead)
        requires
            self.wf(),
            pin < self.pins(),
        ensures
            v == self.tables.actual.pins[pin as int],
    {
        self.tables.actual.pins[pin]
    }

    /// The confirmed level of a pin, where its confirmed state has one.
    pub fn level(&self, pin: usize) -> (v: Option<bool>)
        requires
            self.wf(),
            pin < self.pins(),
        ensures
            v == match self.tables.actual.pins[pin as int] {
                PinValueRead::Floating(x) => x,
                PinValueRead::Digital(b) => Some(b),
                _ => None,
            },
    {
        match self.tables.actual.pins[pin] {
            PinValueRead::Floating(x) => x,
            PinValueRead::Digital(b) => Some(b),
            _ => None,
        }
    }

    /// Starts the setting of the PWM parameters: both are intended at once,
    /// both commands go out, pending input is drained, and with `block` the
    /// operation lasts until the device has confirmed both.
    pub fn init_pwm(&mut self, freq: u32, res: u8, block: bool) -> (q: Request)
        requires
            old(self).wf(),
            old(self).commanding(),
        ensures
            final(self).wf(),
            final(self).begun(
                old(self),
                Phase::Sending,
                if block {
                    Goal::Pwm(freq, res)
                } else {
                    Goal::Nothing
                },
                None,
                Some(0usize),
                None,
            ),
            final(self).tables.intended.pins == old(self).tables.intended.pins,
            final(self).tables.intended.pwmfreq == freq,
            final(self).tables.intended.pwmres == res,
            q@ == Ask::Send(pwm_command(freq, res)),
    {
        self.tables.intended.pwmres = res;
        self.tables.intended.pwmfreq = freq;
        self.phase = Phase::Sending;
        self.goal = if block { Goal::Pwm(freq, res) } else { Goal::Nothing };
        self.pending = None;
        self.settle = Some(0);
        self.handoff = None;
        self.fallback = None;
        Request::Send(encode_pwm(freq, res))
    }

    /// Starts the hand-over to streaming in `mode`: the PWM parameters are
    /// set, blocking, to the intended frequency at 8 bits, then the stream
    /// command goes out. The intended resolution from before is kept aside:
    /// where the transport fails, `abandon` puts it back.
    pub fn enter_stream(&mut self, pin: usize, mode: PwmStreamMode) -> (q: Request)
        requires
            old(self).wf(),
            old(self).commanding(),
        ensures
            final(self).wf(),
            final(self).begun(
                old(self),
                Phase::Sending,
                Goal::Pwm(old(self).tables.intended.pwmfreq, 8),
                None,
                Some(0usize),
                Some((pin, mode)),
            ),
            final(self).tables.intended.pins == old(self).tables.intended.pins,
            final(self).tables.intended.pwmfreq == old(self).tables.intended.pwmfreq,
            final(self).tables.intended.pwmres == 8,
            q@ == Ask::Send(pwm_command(old(self).tables.intended.pwmfreq, 8)),
    {
        let freq = self.tables.intended.pwmfreq;
        let res = self.tables.intended.pwmres;
        let q = self.init_pwm(freq, 8, true);
        self.handoff = Some((pin, mode));
        self.fallback = Some(res);
        q
    }

    /// Starts the hand-over to PWM streaming on a pin.
    pub fn pwmstream(&mut self, pin: usize) -> (q: Request)
        requires
            old(self).wf(),
            old(self).commanding(),
        ensures
            final(self).wf(),
            final(self).begun(
                old(self),
                Phase::Sending,
                Goal::Pwm(old(self).tables.intended.pwmfreq, 8),
                None,
                Some(0usize),
                Some((pin, PwmStreamMode::PWM)),
            ),
            final(self).tables.intended.pins == old(self).tables.intended.pins,
            final(self).tables.intended.pwmfreq == old(self).tables.intended.pwmfreq,
            final(self).tables.intended.pwmres == 8,
            q@ == Ask::Send(pwm_command(old(self).tables.intended.pwmfreq, 8)),
    {
        self.enter_stream(pin, PwmStreamMode::PWM)
    }

    /// Starts the hand-over to audio streaming on a pin.
    pub fn audiostream(&mut self, pin: usize) -> (q: Request)
        requires
            old(self).wf(),
            old(self).commanding(),
        ensures
            final(self).wf(),
            final(self).begun(
                old(self),
                Phase::Sending,
                Goal::Pwm(old(self).tables.intended.pwmfreq, 8),
                None,
                Some(0usize),
                Some((pin, PwmStreamMode::Audio)),
            ),
            final(self).tables.intended.pins == old(self).tables.intended.pins,
            final(self).tables.intended.pwmfreq == old(self).tables.intended.pwmfreq,
            final(self).tables.intended.pwmres == 8,
            q@ == Ask::Send(pwm_command(old(self).tables.intended.pwmfreq, 8)),
    {
        self.enter_stream(pin, PwmStreamMode::Audio)
    }

    /// Gives up the operation in progress after the transport failed. The
    /// session can be used again. Where a hand-over to streaming was in
    /// progress, the intended PWM resolution goes back to what it was before
    /// the hand-over; nothing else in the two tables changes.
    pub fn abandon(&mut self)
        requires
            old(self).wf(),
        ensures
            final(self).wf(),
            final(self).tables.actual == old(self).tables.actual,
            final(self).tables.version == old(self).tables.version,
            final(self).tables.greeted == old(self).tables.greeted,
            final(self).tables.blocking == old(self).tables.blocking,
            final(self).tables.intended.pins == old(self).tables.intended.pins,
            final(self).tables.intended.pwmfreq == old(self).tables.intended.pwmfreq,
            final(self).tables.intended.inares == old(self).tables.intended.inares,
            final(self).tables.intended.streaming == old(self).tables.intended.streaming,
            final(self).tables.intended.pwmres == match old(self).fallback {
                Some(res) => res,
                None => old(self).tables.intended.pwmres,
            },
            final(self).fallback is None,
            final(self).started == old(self).started,
            final(self).phase == Phase::Idle,
    {
        match self.fallback {
            Some(res) => {
                self.tables.intended.pwmres = res;
            },
            None => {},
        }
        self.fallback = None;
        self.phase = Phase::Idle;
    }

    /// Turns the session into a stream once the stream command was written;
    /// before that the session comes back as it is.
    pub fn into_stream(self) -> (r: Result<PwmStreamer, PicoGPIO>)
        ensures
            match self.started {
                Some(mode) => r matches Ok(stream) && stream.mode == mode && stream.session
                    == self,
                None => r matches Err(session) && session == self,
            },
    {
        match self.started {
            Some(mode) => Ok(PwmStreamer::new(self, mode)),
            None => Err(self),
        }
    }

    /// Releases a pin, with the session's blocking policy.
    pub fn float(&mut self, pin: usize) -> (q: Request)
        requires
            old(self).wf(),
            old(self).commanding(),
            pin < old(self).pins(),
        ensures
            final(self).wf(),
            final(self).begun(
                old(self),
                Phase::Sending,
                if old(self).tables.blocking {
                    Goal::Written(pin, PinValueWrite::Floating)
                } else {
                    Goal::Nothing
                },
                None,
                Some(0usize),
                None,
            ),
            final(self).tables.intended.pins@ == old(self).tables.intended.pins@.update(
                pin as int,
                PinValueWrite::Floating,
            ),
            final(self).tables.intended.pwmfreq == old(self).tables.intended.pwmfreq,
            final(self).tables.intended.pwmres == old(self).tables.intended.pwmres,
            q@ == Ask::Send(write_command(pin, PinValueWrite::Floating)),
    {
        let block = self.tables.blocking;
        self.set_manual(pin, PinValueWrite::Floating, block)
    }

    /// Drives a pin high or low, with the session's blocking policy.
    pub fn d_out(&mut self, pin: usize, val: bool) -> (q: Request)
        requires
            old(self).wf(),
            old(self).commanding(),
            pin < old(self).pins(),
        ensures
            final(self).wf(),
            final(self).begun(
                old(self),
                Phase::Sending,
                if old(self).tables.blocking {
                    Goal::Written(pin, PinValueWrite::Digital(val))
                } else {
                    Goal::Nothing
                },
                None,
                Some(0usize),
                None,
            ),
            final(self).tables.intended.pins@ == old(self).tables.intended.pins@.update(
                pin as int,
                PinValueWrite::Digital(val),
            ),
            final(self).tables.intended.pwmfreq == old(self).tables.intended.pwmfreq,
            final(self).tables.intended.pwmres == old(self).tables.intended.pwmres,
            q@ == Ask::Send(write_command(pin, PinValueWrite::Digital(val))),
    {
        let block = self.tables.blocking;
        self.set_manual(pin, PinValueWrite::Digital(val), block)
    }

    /// Sets the PWM duty of a pin, with the session's blocking policy.
    pub fn pwm_out(&mut self, pin: usize, val: u32) -> (q: Request)
        requires
            old(self).wf(),
            old(self).commanding(),
            pin < old(self).pins(),
        ensures
            final(self).wf(),
            final(self).begun(
                old(self),
                Phase::Sending,
                if old(self).tables.blocking {
                    Goal::Written(pin, PinValueWrite::PWM(val))
                } else {
                    Goal::Nothing
                },
                None,
                Some(0usize),
                None,
            ),
            final(self).tables.intended.pins@ == old(self).tables.intended.pins@.update(
                pin as int,
                PinValueWrite::PWM(val),
            ),
            final(self).tables.intended.pwmfreq == old(self).tables.intended.pwmfreq,
            final(self).tables.intended.pwmres == old(self).tables.intended.pwmres,
            q@ == Ask::Send(write_command(pin, PinValueWrite::PWM(val))),
    {
        let block = self.tables.blocking;
        self.set_manual(pin, PinValueWrite::PWM(val), block)
    }

    /// The machine at the start of a fresh read of `kind` with the session's
    /// blocking policy.
    pub open spec fn reading_begun(&self, pre: &PicoGPIO, pin: usize, kind: PinInput) -> bool {
        &&& self.begun(
            pre,
            Phase::Polling,
            Goal::Answered(pin, kind),
            Some((pin, kind)),
            if pre.tables.blocking {
                Some(1usize)
            } else {
                None
            },
            None,
        )
        &&& self.tables.intended.pins@ == pre.tables.intended.pins@.update(
            pin as int,
            PinValueWrite::Floating,
        )
        &&& self.tables.intended.pwmfreq == pre.tables.intended.pwmfreq
        &&& self.tables.intended.pwmres == pre.tables.intended.pwmres
        &&& self.min_lines == 0
    }

    /// Starts a floating read of a pin; the level is then had from `level`.
    pub fn float_in(&mut self, pin: usize) -> (q: Request)
        requires
            old(self).wf(),
            old(self).commanding(),
            pin < old(self).pins(),
        ensures
            final(self).wf(),
            final(self).reading_begun(old(self), pin, PinInput::Floating),
            q@ == Ask::Buffered,
    {
        let block = self.tables.blocking;
        self.get_manual(pin, PinInput::Floating, false, block)
    }

    /// Starts a pull-down read of a pin; the level is then had from `level`.
    pub fn pulldn_in(&mut self, pin: usize) -> (q: Request)
        requires
            old(self).wf(),
            old(self).commanding(),
            pin < old(self).pins(),
        ensures
            final(self).wf(),
            final(self).reading_begun(old(self), pin, PinInput::PDown),
            q@ == Ask::Buffered,
    {
        let block = self.tables.blocking;
        self.get_manual(pin, PinInput::PDown, false, block)
    }

    /// Starts a pull-up read of a pin; the level is then had from `level`.
    pub fn pullup_in(&mut self, pin: usize) -> (q: Request)
        requires
            old(self).wf(),
            old(self).commanding(),
            pin < old(self).pins(),
        ensures
            final(self).wf(),
            final(self).reading_begun(old(self), pin, PinInput::PUp),
            q@ == Ask::Buffered,
    {
        let block = self.tables.blocking;
        self.get_manual(pin, PinInput::PUp, false, block)
    }
}

} // verus!
