//! What the device's confirmation of a digital write does to the confirmed
//! state.

use crate::command::{digits_of, lemma_digits_round_trip, lemma_first_digit};
use crate::line::{decoded, pin_report, ProtocolError, Report, Update};
use crate::number::{is_digit, parsed_number};
use crate::session::{goal_met, Ask, Goal, Phase, PicoGPIO, Reply};
use crate::store::{
    absorbed, applied, line_feeds, line_result, records, Confirmed, Tables,
};
use crate::text::{
    after, ascii, first_of, has_prefix, is_ascii_bytes, leading, pair_after, trailing, trimmed,
};
use crate::values::{PinValueRead, PinValueWrite};
use vstd::prelude::*;

verus! {

/// The line with which the device confirms that a pin is driven to a level:
/// the pin, `=`, then `1` or `0`.
pub open spec fn digital_echo(pin: usize, v: bool) -> Seq<u8> {
    digits_of(pin as nat) + seq![61u8] + digits_of(if v { 1 } else { 0 })
}

/// Where a byte does not occur in a text, its first occurrence in that text
/// followed by another is the one in the other.
pub proof fn lemma_first_of_absent(s: Seq<u8>, t: Seq<u8>, b: u8)
    requires
        forall|i: int| 0 <= i < s.len() ==> #[trigger] s[i] != b,
    ensures
        first_of(s + t, b) == s.len() + first_of(t, b),
    decreases s.len(),
{
    if s.len() == 0 {
        assert(s + t =~= t);
    } else {
        assert((s + t)[0] == s[0]);
        assert((s + t).skip(1) =~= s.skip(1) + t);
        assert forall|i: int| 0 <= i < s.skip(1).len() implies #[trigger] s.skip(1)[i] != b by {
            assert(s.skip(1)[i] == s[i + 1]);
        }
        lemma_first_of_absent(s.skip(1), t, b);
    }
}

/// A line whose first byte differs from a literal's neither is that literal
/// nor begins with it.
pub proof fn lemma_other_first_byte(line: Seq<u8>, lit: Seq<char>)
    requires
        line.len() > 0,
        lit.len() > 0,
        line[0] != lit[0] as u8,
    ensures
        after(line, lit) is None,
        line != ascii(lit),
{
    if has_prefix(line, lit) {
        assert(line.take(lit.len() as int)[0] == ascii(lit)[0]);
    }
    if line == ascii(lit) {
        assert(line[0] == ascii(lit)[0]);
    }
}

/// The confirmation of a digital write decodes to that pin and that level.
pub proof fn lemma_digital_echo_decodes(pin: usize, v: bool)
    ensures
        decoded(digital_echo(pin, v)) == Ok::<Update, ProtocolError>(
            Update::Pin(pin, PinValueRead::Digital(v)),
        ),
{
    let level: nat = if v { 1 } else { 0 };
    let d = digits_of(pin as nat);
    let w = digits_of(level);
    let line = digital_echo(pin, v);
    lemma_digits_round_trip(pin as nat, usize::MAX as u64);
    lemma_digits_round_trip(level, 0xff);
    lemma_first_digit(pin as nat);
    assert(line[0] == d[0]);
    assert forall|i: int| 0 <= i < line.len() implies #[trigger] line[i] < 128 by {
        if i < d.len() {
            assert(is_digit(d[i]));
        } else if i > d.len() {
            assert(is_digit(w[i - d.len() - 1]));
        }
    }
    assert(is_ascii_bytes(line));
    reveal_strlit("!OK");
    reveal_strlit("+PICO_GPIO ");
    reveal_strlit("!ERROR:");
    reveal_strlit("!PWMFREQ:");
    reveal_strlit("!PWMRES:");
    reveal_strlit("!INARES:");
    reveal_strlit("!STREAMING");
    reveal_strlit("~");
    reveal_strlit("/");
    reveal_strlit("#");
    reveal_strlit("");
    lemma_other_first_byte(line, "!OK"@);
    lemma_other_first_byte(line, "+PICO_GPIO "@);
    lemma_other_first_byte(line, "!ERROR:"@);
    lemma_other_first_byte(line, "!PWMFREQ:"@);
    lemma_other_first_byte(line, "!PWMRES:"@);
    lemma_other_first_byte(line, "!INARES:"@);
    lemma_other_first_byte(line, "!STREAMING"@);
    lemma_other_first_byte(line, "~"@);
    lemma_other_first_byte(line, "/"@);
    lemma_other_first_byte(line, "#"@);
    assert(line.take(0) =~= ascii(""@));
    assert(line.skip(0) =~= line);
    assert(after(line, ""@) == Some(line));
    let tail = seq![61u8] + w;
    assert(line =~= d + tail);
    assert forall|i: int| 0 <= i < d.len() implies #[trigger] d[i] != 61 by {
        assert(is_digit(d[i]));
    }
    lemma_first_of_absent(d, tail, 61);
    assert(first_of(tail, 61) == 0);
    assert(line.take(d.len() as int) =~= d);
    assert(line.skip(d.len() as int + 1) =~= w);
    assert(pair_after(line, ""@) == Some((d, w)));
    assert(parsed_number(d, usize::MAX as u64) == Some(pin as u64));
    assert(parsed_number(w, 0xff) == Some(level as u64));
    assert(pin_report(Report::Digital, d, w) == Ok::<Update, ProtocolError>(
        Update::Pin(pin, PinValueRead::Digital(v)),
    ));
}

/// Once the device has confirmed a digital write, the confirmed state of
/// that pin is the written level and every other entry is as before; the
/// goal of a blocking write of that level is then met, and a read from the
/// confirmed state answers it.
pub proof fn lemma_digital_echo_confirms(t: &Tables, after_echo: &Tables, pin: usize, v: bool)
    requires
        pin < t.actual.pins.len(),
        line_result(t.confirmed(), digital_echo(pin, v)) == Ok::<Confirmed, ProtocolError>(
            after_echo.confirmed(),
        ),
    ensures
        after_echo.actual.pins@ == t.actual.pins@.update(pin as int, PinValueRead::Digital(v)),
        goal_met(after_echo, Goal::Written(pin, PinValueWrite::Digital(v))),
        after_echo.actual.pins[pin as int].spec_matches(PinValueWrite::Digital(v)),
{
    lemma_digital_echo_decodes(pin, v);
    assert(applied(t.confirmed(), Update::Pin(pin, PinValueRead::Digital(v))) == Ok::<
        Confirmed,
        ProtocolError,
    >(
        Confirmed {
            pins: t.actual.pins@.update(pin as int, PinValueRead::Digital(v)),
            ..t.confirmed()
        },
    ));
}

/// A line without content changes nothing.
pub proof fn lemma_empty_line_is_ignored()
    ensures
        decoded(Seq::<u8>::empty()) == Ok::<Update, ProtocolError>(Update::Nothing),
{
    let line = Seq::<u8>::empty();
    reveal_strlit("!OK");
    reveal_strlit("+PICO_GPIO ");
    reveal_strlit("!ERROR:");
    reveal_strlit("!PWMFREQ:");
    reveal_strlit("!PWMRES:");
    reveal_strlit("!INARES:");
    reveal_strlit("!STREAMING");
    reveal_strlit("~");
    reveal_strlit("/");
    reveal_strlit("#");
    reveal_strlit("");
    assert(ascii("!OK"@).len() == 3);
    assert(ascii("!STREAMING"@).len() == 10);
    assert(line.take(0) =~= ascii(""@));
    assert(after(line, ""@) == Some(line.skip(0)));
    assert(first_of(line.skip(0), 61) == 0);
}

/// A burst that holds the confirmation of a digital write and its line feed
/// is taken without error, whatever line count is owed, and leaves the
/// confirmed state of that pin at the written level.
pub proof fn lemma_digital_echo_burst(c: Confirmed, pin: usize, v: bool)
    requires
        pin < c.pins.len(),
    ensures
        absorbed(c, records(digital_echo(pin, v).push(10))) == (
            Confirmed { pins: c.pins.update(pin as int, PinValueRead::Digital(v)), ..c },
            None::<ProtocolError>,
        ),
{
    let level: nat = if v { 1 } else { 0 };
    let d = digits_of(pin as nat);
    let w = digits_of(level);
    let line = digital_echo(pin, v);
    let burst = line.push(10);
    let next = Confirmed { pins: c.pins.update(pin as int, PinValueRead::Digital(v)), ..c };
    lemma_digits_round_trip(pin as nat, usize::MAX as u64);
    lemma_digits_round_trip(level, 0xff);
    lemma_digital_echo_records(pin, v);
    let rest = Seq::<u8>::empty();
    assert(is_digit(line[0])) by {
        assert(line[0] == d[0]);
    }
    assert(is_digit(line.last())) by {
        assert(line.last() == w.last());
    }
    assert(leading(line) == 0);
    assert(trailing(line) == 0);
    assert(line.skip(0).take(line.len() as int) =~= line);
    assert(trimmed(line) == line);
    assert(leading(rest) == 0 && trailing(rest) == 0);
    assert(rest.skip(0).take(0) =~= rest);
    assert(trimmed(rest) == rest);
    lemma_digital_echo_decodes(pin, v);
    lemma_empty_line_is_ignored();
    assert(line_result(c, line) == Ok::<Confirmed, ProtocolError>(next));
    assert(line_result(next, rest) == Ok::<Confirmed, ProtocolError>(next));
    let recs = records(burst);
    assert(recs.skip(1) =~= seq![rest]);
    assert(recs.skip(1).skip(1) =~= Seq::<Seq<u8>>::empty());
    assert(absorbed(next, recs.skip(1).skip(1)) == (next, None::<ProtocolError>));
    assert(absorbed(next, recs.skip(1)) == (next, None::<ProtocolError>));
}

/// The confirmation completes a blocking digital write: when the burst that
/// the session has assembled is that confirmation, the session takes it,
/// asks how much more is buffered, and with nothing buffered the write is
/// finished.
pub proof fn lemma_digital_echo_completes_write(
    pre: &PicoGPIO,
    mid: &PicoGPIO,
    post: &PicoGPIO,
    chunk: Seq<u8>,
    r: Result<Ask, ProtocolError>,
    ask: Ask,
    pin: usize,
    v: bool,
)
    requires
        pin < pre.pins(),
        pre.goal == Goal::Written(pin, PinValueWrite::Digital(v)),
        pre.handoff is None,
        pre.pending is None,
        pre.min_lines <= 1,
        pre.line@ + chunk == digital_echo(pin, v).push(10),
        mid.after_chunk(pre, chunk, r),
        mid.goal == pre.goal,
        mid.handoff == pre.handoff,
        post.after_drain(mid, ask),
    ensures
        r == Ok::<Ask, ProtocolError>(Ask::Buffered),
        mid.phase == Phase::Polling,
        mid.min_lines == 0,
        goal_met(&mid.tables, mid.goal),
        ask == Ask::Finished,
        post.phase == Phase::Idle,
        post.tables.actual.pins[pin as int] == PinValueRead::Digital(v),
{
    let whole = pre.line@ + chunk;
    lemma_digital_echo_burst(pre.tables.confirmed(), pin, v);
    assert(whole.last() == 10);
    lemma_digital_echo_records(pin, v);
}

/// One line is not two: a drain that owes two lines and takes a burst of one
/// confirmation and its line feed still owes one, and with nothing buffered
/// it goes on to read instead of finishing.
pub proof fn lemma_one_line_of_two_leaves_one_owed(
    pre: &PicoGPIO,
    mid: &PicoGPIO,
    post: &PicoGPIO,
    chunk: Reply,
    r: Result<Ask, ProtocolError>,
    next: Result<Ask, ProtocolError>,
    pin: usize,
    v: bool,
)
    requires
        pin < pre.pins(),
        pre.phase == Phase::Assembling,
        pre.min_lines == 2,
        chunk matches Reply::Chunk(bytes) && pre.line@ + bytes@ == digital_echo(pin, v).push(10),
        mid.stepped(pre, chunk, r),
        post.stepped(mid, Reply::Buffered(0), next),
    ensures
        r == Ok::<Ask, ProtocolError>(Ask::Buffered),
        mid.min_lines == 1,
        mid.tables.actual.pins[pin as int] == PinValueRead::Digital(v),
        next == Ok::<Ask, ProtocolError>(Ask::ReadByte),
        post.phase == Phase::Heading,
{
    lemma_digital_echo_burst(pre.tables.confirmed(), pin, v);
    lemma_digital_echo_records(pin, v);
    assert(digital_echo(pin, v).push(10).last() == 10);
}

/// The burst that holds one confirmation and its line feed has two records,
/// the confirmation and the empty text after the line feed, and is one line.
pub proof fn lemma_digital_echo_records(pin: usize, v: bool)
    ensures
        records(digital_echo(pin, v).push(10)) == seq![digital_echo(pin, v), Seq::<u8>::empty()],
        line_feeds(digital_echo(pin, v).push(10)) == 1,
{
    let level: nat = if v { 1 } else { 0 };
    let d = digits_of(pin as nat);
    let w = digits_of(level);
    let line = digital_echo(pin, v);
    let burst = line.push(10);
    lemma_digits_round_trip(pin as nat, usize::MAX as u64);
    lemma_digits_round_trip(level, 0xff);
    assert forall|i: int| 0 <= i < line.len() implies #[trigger] line[i] != 10 by {
        if i < d.len() {
            assert(is_digit(d[i]));
        } else if i > d.len() {
            assert(is_digit(w[i - d.len() - 1]));
        }
    }
    let end = seq![10u8];
    assert(burst =~= line + end);
    lemma_first_of_absent(line, end, 10);
    assert(first_of(end, 10) == 0);
    assert(burst.take(line.len() as int) =~= line);
    assert(burst.skip(line.len() as int + 1) =~= Seq::<u8>::empty());
    let rest = Seq::<u8>::empty();
    assert(records(rest) =~= seq![rest]);
    assert(records(burst) =~= seq![line, rest]);
    assert(line_feeds(rest) == 0);
}

} // verus!
