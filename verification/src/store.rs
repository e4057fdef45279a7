//! The two pin tables of a session and the effect of device feedback on the
//! confirmed one.

use crate::line::{decode_line, decoded, ProtocolError, Update};
use crate::text::{find_byte, first_of, lemma_first_of_bounds, trim, trimmed};
use crate::values::{PicoGPIOVersion, PinValueRead, PinValueWrite};
use vstd::prelude::*;
use vstd::slice::slice_subrange;

verus! {

/// What the host last asked for.
pub struct Intended {
    pub pins: Vec<PinValueWrite>,
    pub pwmfreq: u32,
    pub pwmres: u8,
    pub inares: u8,
    pub streaming: bool,
}

/// What the device last confirmed.
pub struct Actual {
    pub pins: Vec<PinValueRead>,
    pub pwmfreq: u32,
    pub pwmres: u8,
    pub inares: u8,
    pub streaming: bool,
}

/// The confirmed state as a mathematical value: everything that device
/// feedback can change.
pub struct Confirmed {
    pub version: PicoGPIOVersion,
    /// Whether the banner was seen; the version is fixed from then on.
    pub greeted: bool,
    pub pins: Seq<PinValueRead>,
    pub pwmfreq: u32,
    pub pwmres: u8,
    pub inares: u8,
    pub streaming: bool,
}

/// The confirmed state after one update, or the reason the update cannot be
/// taken.
pub open spec fn applied(c: Confirmed, u: Update) -> Result<Confirmed, ProtocolError> {
    match u {
        Update::Nothing => Ok(c),
        Update::Version(v) => if c.greeted {
            Ok(c)
        } else {
            Ok(Confirmed { version: v, greeted: true, ..c })
        },
        Update::PwmFreq(n) => Ok(Confirmed { pwmfreq: n, ..c }),
        Update::PwmRes(n) => Ok(Confirmed { pwmres: n, ..c }),
        Update::InaRes(n) => Ok(Confirmed { inares: n, ..c }),
        Update::Streaming => Ok(Confirmed { streaming: true, ..c }),
        Update::Pin(p, v) => if p < c.pins.len() {
            Ok(Confirmed { pins: c.pins.update(p as int, v), ..c })
        } else {
            Err(ProtocolError::UnknownPin)
        },
    }
}

/// The confirmed state after one trimmed status line.
pub open spec fn line_result(c: Confirmed, line: Seq<u8>) -> Result<Confirmed, ProtocolError> {
    match decoded(line) {
        Ok(u) => applied(c, u),
        Err(e) => Err(e),
    }
}

/// The records of a burst: the runs of bytes between its line feeds, the one
/// after the last line feed included.
pub open spec fn records(s: Seq<u8>) -> Seq<Seq<u8>>
    decreases s.len(),
{
    let k = first_of(s, 10);
    if 0 <= k < s.len() {
        seq![s.take(k)] + records(s.skip(k + 1))
    } else {
        seq![s]
    }
}

/// The confirmed state after the records were taken in order, each trimmed,
/// up to the first that is fatal, and that record's error.
pub open spec fn absorbed(c: Confirmed, recs: Seq<Seq<u8>>) -> (Confirmed, Option<ProtocolError>)
    decreases recs.len(),
{
    if recs.len() == 0 {
        (c, None)
    } else {
        match line_result(c, trimmed(recs[0])) {
            Ok(next) => absorbed(next, recs.skip(1)),
            Err(e) => (c, Some(e)),
        }
    }
}

/// The number of line feeds in a burst: the lines that it brings to an end.
/// What stands after the last line feed is a record, but no line.
pub open spec fn line_feeds(s: Seq<u8>) -> nat
    decreases s.len(),
{
    let k = first_of(s, 10);
    if 0 <= k < s.len() {
        1 + line_feeds(s.skip(k + 1))
    } else {
        0
    }
}

/// A burst has one record more than it has line feeds.
pub proof fn lemma_records_and_line_feeds(s: Seq<u8>)
    ensures
        records(s).len() == line_feeds(s) + 1,
    decreases s.len(),
{
    let k = first_of(s, 10);
    if 0 <= k < s.len() {
        lemma_records_and_line_feeds(s.skip(k + 1));
    }
}

/// The line count still owed after `done` lines were taken.
pub open spec fn owed(min_lines: usize, done: int) -> usize {
    if done >= min_lines {
        0
    } else {
        (min_lines - done) as usize
    }
}

/// Processing ends at the first fatal record: whatever follows it changes
/// neither the state nor the error that is reported.
pub proof fn lemma_fatal_record_ends_processing(
    c: Confirmed,
    before: Seq<Seq<u8>>,
    after: Seq<Seq<u8>>,
)
    requires
        absorbed(c, before).1 is Some,
    ensures
        absorbed(c, before + after) == absorbed(c, before),
    decreases before.len(),
{
    assert(before.len() > 0);
    assert((before + after)[0] == before[0]);
    match line_result(c, trimmed(before[0])) {
        Ok(next) => {
            assert((before + after).skip(1) =~= before.skip(1) + after);
            lemma_fatal_record_ends_processing(next, before.skip(1), after);
        },
        Err(_) => {},
    }
}

/// Records are taken in order and none is skipped: where a first run of
/// records is taken without error, the records after it are taken from the
/// state that the first run left.
pub proof fn lemma_records_are_taken_in_order(
    c: Confirmed,
    before: Seq<Seq<u8>>,
    after: Seq<Seq<u8>>,
)
    requires
        absorbed(c, before).1 is None,
    ensures
        absorbed(c, before + after) == absorbed(absorbed(c, before).0, after),
    decreases before.len(),
{
    if before.len() == 0 {
        assert(before + after =~= after);
    } else {
        assert((before + after)[0] == before[0]);
        match line_result(c, trimmed(before[0])) {
            Ok(next) => {
                assert((before + after).skip(1) =~= before.skip(1) + after);
                lemma_records_are_taken_in_order(next, before.skip(1), after);
            },
            Err(_) => {},
        }
    }
}

/// The two PWM confirmations may come in either order: once both were
/// taken, the confirmed frequency and resolution are the confirmed ones and
/// the rest of the state is as before.
pub proof fn lemma_pwm_confirmations_commute(c: Confirmed, freq: u32, res: u8)
    ensures
        applied(applied(c, Update::PwmFreq(freq))->Ok_0, Update::PwmRes(res)) == applied(
            applied(c, Update::PwmRes(res))->Ok_0,
            Update::PwmFreq(freq),
        ),
        applied(applied(c, Update::PwmFreq(freq))->Ok_0, Update::PwmRes(res)) == Ok::<
            Confirmed,
            ProtocolError,
        >(Confirmed { pwmfreq: freq, pwmres: res, ..c }),
{
}

/// The version is set by the first banner and by nothing after it.
pub proof fn lemma_version_is_set_once(c: Confirmed, u: Update)
    requires
        c.greeted,
    ensures
        applied(c, u) matches Ok(next) ==> next.version == c.version && next.greeted,
{
}

/// A confirmation of one PWM parameter alone leaves the other as it was.
pub proof fn lemma_pwm_confirmation_is_partial(c: Confirmed, freq: u32, res: u8)
    ensures
        applied(c, Update::PwmFreq(freq))->Ok_0.pwmres == c.pwmres,
        applied(c, Update::PwmRes(res))->Ok_0.pwmfreq == c.pwmfreq,
{
}

/// The state of one session: the firmware version, the intended and the
/// confirmed table, and the blocking policy of the short-hand operations.
pub struct Tables {
    pub version: PicoGPIOVersion,
    /// Whether the banner was seen; the version is fixed from then on.
    pub greeted: bool,
    pub intended: Intended,
    pub actual: Actual,
    pub blocking: bool,
}

impl Tables {
    /// Both tables have an entry for every pin.
    pub open spec fn wf(&self) -> bool {
        self.intended.pins.len() == self.actual.pins.len()
    }

    /// The number of pins.
    pub open spec fn pins(&self) -> nat {
        self.actual.pins@.len()
    }

    /// Everything that device feedback can change, as a mathematical value.
    pub open spec fn confirmed(&self) -> Confirmed {
        Confirmed {
            version: self.version,
            greeted: self.greeted,
            pins: self.actual.pins@,
            pwmfreq: self.actual.pwmfreq,
            pwmres: self.actual.pwmres,
            inares: self.actual.inares,
            streaming: self.actual.streaming,
        }
    }

    /// Tables for `pins` pins: every pin floating and unconfirmed, PWM at
    /// frequency 0 and 8 bits, analog reads at 10 bits, blocking on.
    pub fn new(pins: usize) -> (t: Tables)
        ensures
            t.wf(),
            t.pins() == pins,
            t.version == PicoGPIOVersion::Unknown,
            !t.greeted,
            t.blocking,
            forall|p: int| 0 <= p < pins ==> t.intended.pins[p] == PinValueWrite::Floating,
            forall|p: int| 0 <= p < pins ==> t.actual.pins[p] == PinValueRead::Floating(None),
            t.intended.pwmfreq == 0 && t.intended.pwmres == 8 && t.intended.inares == 10
                && !t.intended.streaming,
            t.actual.pwmfreq == 0 && t.actual.pwmres == 8 && t.actual.inares == 10
                && !t.actual.streaming,
    {
        let mut want: Vec<PinValueWrite> = Vec::new();
        let mut have: Vec<PinValueRead> = Vec::new();
        let mut i: usize = 0;
        while i < pins
            invariant
                i <= pins,
                want.len() == i,
                have.len() == i,
                forall|p: int| 0 <= p < i ==> want[p] == PinValueWrite::Floating,
                forall|p: int| 0 <= p < i ==> have[p] == PinValueRead::Floating(None),
            decreases pins - i,
        {
            want.push(PinValueWrite::Floating);
            have.push(PinValueRead::Floating(None));
            i += 1;
        }
        Tables {
            version: PicoGPIOVersion::Unknown,
            greeted: false,
            intended: Intended { pins: want, pwmfreq: 0, pwmres: 8, inares: 10, streaming: false },
            actual: Actual { pins: have, pwmfreq: 0, pwmres: 8, inares: 10, streaming: false },
            blocking: true,
        }
    }

    /// Takes one update into the confirmed state. The intended table is never
    /// touched.
    pub fn apply(&mut self, u: Update) -> (r: Result<(), ProtocolError>)
        requires
            old(self).wf(),
        ensures
            final(self).wf(),
            final(self).intended == old(self).intended,
            final(self).blocking == old(self).blocking,
            match r {
                Ok(()) => applied(old(self).confirmed(), u) == Ok::<Confirmed, ProtocolError>(
                    final(self).confirmed(),
                ),
                Err(e) => applied(old(self).confirmed(), u) == Err::<Confirmed, ProtocolError>(e)
                    && final(self).confirmed() == old(self).confirmed(),
            },
    {
        match u {
            Update::Nothing => {},
            Update::Version(v) => {
                if !self.greeted {
                    self.version = v;
                    self.greeted = true;
                }
            },
            Update::PwmFreq(n) => {
                self.actual.pwmfreq = n;
            },
            Update::PwmRes(n) => {
                self.actual.pwmres = n;
            },
            Update::InaRes(n) => {
                self.actual.inares = n;
            },
            Update::Streaming => {
                self.actual.streaming = true;
            },
            Update::Pin(p, v) => {
                if p >= self.actual.pins.len() {
                    return Err(ProtocolError::UnknownPin);
                }
                self.actual.pins.set(p, v);
            },
        }
        Ok(())
    }

    /// Decodes one trimmed status line and takes its update.
    pub fn parse_line(&mut self, line: &[u8]) -> (r: Result<(), ProtocolError>)
        requires
            old(self).wf(),
        ensures
            final(self).wf(),
            final(self).intended == old(self).intended,
            final(self).blocking == old(self).blocking,
            match r {
                Ok(()) => line_result(old(self).confirmed(), line@) == Ok::<
                    Confirmed,
                    ProtocolError,
                >(final(self).confirmed()),
                Err(e) => line_result(old(self).confirmed(), line@) == Err::<
                    Confirmed,
                    ProtocolError,
                >(e) && final(self).confirmed() == old(self).confirmed(),
            },
    {
        match decode_line(line) {
            Ok(u) => self.apply(u),
            Err(e) => Err(e),
        }
    }

    /// Takes one burst of device output: every record of it, in order, each
    /// trimmed, up to the first fatal one. Returns the line count still owed
    /// of `min_lines`: each line feed of the burst ends one line. What stands
    /// after the last line feed is taken too, but is no line.
    pub fn absorb(&mut self, burst: &[u8], min_lines: usize) -> (r: Result<usize, ProtocolError>)
        requires
            old(self).wf(),
        ensures
            final(self).wf(),
            final(self).intended == old(self).intended,
            final(self).blocking == old(self).blocking,
            final(self).confirmed() == absorbed(old(self).confirmed(), records(burst@)).0,
            match r {
                Ok(n) => absorbed(old(self).confirmed(), records(burst@)).1 is None && n == owed(
                    min_lines,
                    line_feeds(burst@) as int,
                ),
                Err(e) => absorbed(old(self).confirmed(), records(burst@)).1 == Some(e),
            },
    {
        let mut pos: usize = 0;
        let mut left: usize = min_lines;
        let mut more: bool = true;
        let ghost start = self.confirmed();
        let ghost mut done: int = 0;
        assert(burst@.skip(0) =~= burst@);
        while more
            invariant
                self.wf(),
                self.intended == old(self).intended,
                self.blocking == old(self).blocking,
                start == old(self).confirmed(),
                pos <= burst.len(),
                left == owed(min_lines, done),
                done >= 0,
                more ==> absorbed(start, records(burst@)) == absorbed(
                    self.confirmed(),
                    records(burst@.skip(pos as int)),
                ),
                more ==> line_feeds(burst@) == done + line_feeds(burst@.skip(pos as int)),
                !more ==> absorbed(start, records(burst@)) == (self.confirmed(), None::<ProtocolError>),
                !more ==> line_feeds(burst@) == done,
            decreases burst.len() - pos + (if more { 1int } else { 0int }),
        {
            let rest = slice_subrange(burst, pos, burst.len());
            assert(rest@ =~= burst@.skip(pos as int));
            let k = find_byte(rest, 10);
            proof {
                lemma_first_of_bounds(rest@, 10);
            }
            let record = slice_subrange(rest, 0, k);
            let ghost recs = records(rest@);
            assert(recs[0] == record@) by {
                assert(record@ =~= rest@.take(k as int));
                if k == rest.len() {
                    assert(rest@.take(k as int) =~= rest@);
                }
            }
            let ghost before = self.confirmed();
            match self.parse_line(trim(record)) {
                Ok(()) => {},
                Err(e) => {
                    return Err(e);
                },
            }
            if k < rest.len() {
                left = if left > 0 { left - 1 } else { 0 };
                proof {
                    done = done + 1;
                }
                assert(rest@.skip(k + 1) =~= burst@.skip(pos + k + 1));
                assert(recs.skip(1) =~= records(rest@.skip(k + 1)));
                pos = pos + k + 1;
            } else {
                assert(recs.skip(1) =~= Seq::<Seq<u8>>::empty());
                assert(absorbed(self.confirmed(), recs.skip(1)) == (
                    self.confirmed(),
                    None::<ProtocolError>,
                ));
                more = false;
            }
        }
        Ok(left)
    }
}

} // verus!
