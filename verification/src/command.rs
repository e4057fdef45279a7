//! The textual commands that the host sends.

use crate::number::{all_digits, digits_value, parsed_number};
use crate::pwm_streamer::PwmStreamMode;
use crate::text::ascii;
use crate::values::{PinInput, PinValueWrite};
use vstd::prelude::*;
use vstd::string::*;

verus! {

/// The decimal digits of a number, most significant first, without leading
/// zeros.
pub open spec fn digits_of(n: nat) -> Seq<u8>
    decreases n,
{
    if n < 10 {
        seq![(48 + n) as u8]
    } else {
        digits_of(n / 10).push((48 + n % 10) as u8)
    }
}

/// The command that puts a pin into the state `value`.
pub open spec fn write_command(pin: usize, value: PinValueWrite) -> Seq<u8> {
    match value {
        PinValueWrite::Floating => ascii("float "@) + digits_of(pin as nat) + ascii("\r\n"@),
        PinValueWrite::Digital(v) => ascii("out "@) + digits_of(pin as nat) + ascii("="@)
            + digits_of(if v { 1 } else { 0 }) + ascii("\r\n"@),
        PinValueWrite::PWM(v) => ascii("pwm "@) + digits_of(pin as nat) + ascii("="@) + digits_of(
            v as nat,
        ) + ascii("\r\n"@),
    }
}

/// The command that asks for a reading of a pin.
pub open spec fn read_command(pin: usize, kind: PinInput) -> Seq<u8> {
    match kind {
        PinInput::Floating => ascii("float "@) + digits_of(pin as nat) + ascii("\r\n"@),
        PinInput::Analog => ascii("ina "@) + digits_of(pin as nat) + ascii("\r\n"@),
        PinInput::PDown => ascii("in "@) + digits_of(pin as nat) + ascii("\r\n"@),
        PinInput::PUp => ascii("in^ "@) + digits_of(pin as nat) + ascii("\r\n"@),
    }
}

/// The two commands that set the PWM resolution and frequency.
pub open spec fn pwm_command(freq: u32, res: u8) -> Seq<u8> {
    ascii("pwmres "@) + digits_of(res as nat) + ascii("\r\npwmfreq "@) + digits_of(freq as nat)
        + ascii("\r\n"@)
}

/// The command that ends the textual protocol and starts streaming to a
/// pin. It has no terminator.
pub open spec fn stream_command(pin: usize, mode: PwmStreamMode) -> Seq<u8> {
    match mode {
        PwmStreamMode::PWM => ascii("pwmstream "@) + digits_of(pin as nat),
        PwmStreamMode::Audio => ascii("audiostream "@) + digits_of(pin as nat),
    }
}

/// Written out and read back, a number is itself.
pub proof fn lemma_digits_round_trip(n: nat, max: u64)
    requires
        n <= max,
    ensures
        digits_of(n).len() > 0,
        all_digits(digits_of(n)),
        digits_value(digits_of(n)) == n,
        parsed_number(digits_of(n), max) == Some(n as u64),
    decreases n,
{
    if n < 10 {
        assert(digits_of(n).drop_last() =~= Seq::<u8>::empty());
        assert(digits_value(digits_of(n).drop_last()) == 0);
    } else {
        lemma_digits_round_trip(n / 10, max);
        assert(digits_of(n).drop_last() =~= digits_of(n / 10));
    }
    lemma_first_digit(n);
}

/// The first digit of a number is never a plus sign.
pub proof fn lemma_first_digit(n: nat)
    ensures
        digits_of(n).len() > 0,
        48 <= digits_of(n)[0] <= 57,
    decreases n,
{
    if n >= 10 {
        lemma_first_digit(n / 10);
    }
}

/// Appends the decimal digits of `n`.
pub fn push_number(out: &mut Vec<u8>, n: u64)
    ensures
        final(out)@ == old(out)@ + digits_of(n as nat),
    decreases n,
{
    if n >= 10 {
        push_number(out, n / 10);
    }
    out.push(48 + (n % 10) as u8);
    assert(final(out)@ =~= old(out)@ + digits_of(n as nat));
}

/// Appends the bytes of an ASCII literal.
pub fn push_text(out: &mut Vec<u8>, lit: &str)
    requires
        is_ascii(lit),
    ensures
        final(out)@ == old(out)@ + ascii(lit@),
{
    broadcast use is_ascii_spec_bytes;

    let bytes = lit.as_bytes();
    assert(bytes@ =~= ascii(lit@));
    let mut i: usize = 0;
    while i < bytes.len()
        invariant
            i <= bytes.len(),
            bytes@ == ascii(lit@),
            out@ == old(out)@ + bytes@.take(i as int),
        decreases bytes.len() - i,
    {
        out.push(bytes[i]);
        assert(out@ =~= old(out)@ + bytes@.take(i + 1));
        i += 1;
    }
    assert(bytes@.take(i as int) =~= bytes@);
}

/// Encodes the command that puts a pin into the state `value`.
pub fn encode_write(pin: usize, value: PinValueWrite) -> (out: Vec<u8>)
    ensures
        out@ == write_command(pin, value),
{
    proof {
        reveal_strlit("float ");
        reveal_strlit("out ");
        reveal_strlit("pwm ");
        reveal_strlit("=");
        reveal_strlit("\r\n");
    }
    let mut out: Vec<u8> = Vec::new();
    match value {
        PinValueWrite::Floating => {
            push_text(&mut out, "float ");
            push_number(&mut out, pin as u64);
        },
        PinValueWrite::Digital(v) => {
            push_text(&mut out, "out ");
            push_number(&mut out, pin as u64);
            push_text(&mut out, "=");
            push_number(&mut out, if v { 1 } else { 0 });
        },
        PinValueWrite::PWM(v) => {
            push_text(&mut out, "pwm ");
            push_number(&mut out, pin as u64);
            push_text(&mut out, "=");
            push_number(&mut out, v as u64);
        },
    }
    push_text(&mut out, "\r\n");
    assert(out@ =~= write_command(pin, value));
    out
}

/// Encodes the command that asks for a reading of a pin.
pub fn encode_read(pin: usize, kind: PinInput) -> (out: Vec<u8>)
    ensures
        out@ == read_command(pin, kind),
{
    proof {
        reveal_strlit("float ");
        reveal_strlit("ina ");
        reveal_strlit("in ");
        reveal_strlit("in^ ");
        reveal_strlit("\r\n");
    }
    let mut out: Vec<u8> = Vec::new();
    match kind {
        PinInput::Floating => push_text(&mut out, "float "),
        PinInput::Analog => push_text(&mut out, "ina "),
        PinInput::PDown => push_text(&mut out, "in "),
        PinInput::PUp => push_text(&mut out, "in^ "),
    }
    push_number(&mut out, pin as u64);
    push_text(&mut out, "\r\n");
    assert(out@ =~= read_command(pin, kind));
    out
}

/// Encodes the two commands that set the PWM resolution and frequency.
pub fn encode_pwm(freq: u32, res: u8) -> (out: Vec<u8>)
    ensures
        out@ == pwm_command(freq, res),
{
    proof {
        reveal_strlit("pwmres ");
        reveal_strlit("\r\npwmfreq ");
        reveal_strlit("\r\n");
    }
    let mut out: Vec<u8> = Vec::new();
    push_text(&mut out, "pwmres ");
    push_number(&mut out, res as u64);
    push_text(&mut out, "\r\npwmfreq ");
    push_number(&mut out, freq as u64);
    push_text(&mut out, "\r\n");
    assert(out@ =~= pwm_command(freq, res));
    out
}

/// Encodes the command that starts streaming to a pin.
pub fn encode_stream(pin: usize, mode: PwmStreamMode) -> (out: Vec<u8>)
    ensures
        out@ == stream_command(pin, mode),
{
    proof {
        reveal_strlit("pwmstream ");
        reveal_strlit("audiostream ");
    }
    let mut out: Vec<u8> = Vec::new();
    match mode {
        PwmStreamMode::PWM => push_text(&mut out, "pwmstream "),
        PwmStreamMode::Audio => push_text(&mut out, "audiostream "),
    }
    push_number(&mut out, pin as u64);
    assert(out@ =~= stream_command(pin, mode));
    out
}

} // verus!
