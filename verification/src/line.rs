//! Decoding of one status line of the device.

use crate::number::{parse_number, parsed_number};
use crate::scan::{read_field, read_pair};
use crate::text::{after, all_ascii, ascii, is_ascii_bytes, pair_after, same_text};
use crate::values::{PicoGPIOVersion, PinValueRead};
use vstd::prelude::*;

verus! {

/// The conditions that end a session: host and device no longer agree.
#[derive(Clone, Copy, PartialEq, Eq, Structural, Debug)]
pub enum ProtocolError {
    /// The device rejected the protocol version with an `!ERROR` line.
    VersionMismatch,
    /// A field that must hold a number does not.
    Malformed,
    /// A report names a pin that the session has no entry for.
    UnknownPin,
    /// The device sent bytes that are not ASCII.
    NotText,
    /// The session was told of a transport result that it had not asked for.
    OutOfTurn,
}

/// What one status line asks to change in the confirmed state.
#[derive(Clone, Copy, PartialEq, Eq, Structural, Debug)]
pub enum Update {
    Nothing,
    Version(PicoGPIOVersion),
    PwmFreq(u32),
    PwmRes(u8),
    InaRes(u8),
    Streaming,
    Pin(usize, PinValueRead),
}

/// The four kinds of pin report, told apart by the line's first byte.
#[derive(Clone, Copy, PartialEq, Eq, Structural, Debug)]
pub enum Report {
    Floating,
    Analog,
    Pwm,
    Digital,
}

impl Report {
    /// Largest value that a report of this kind may carry.
    pub open spec fn limit(self) -> u64 {
        match self {
            Report::Floating => 0xff,
            Report::Analog => 0xffff_ffff,
            Report::Pwm => 0xffff_ffff,
            Report::Digital => 0xff,
        }
    }

    /// The confirmed pin state that a report of this kind with value `v` gives.
    pub open spec fn value(self, v: u64) -> PinValueRead {
        match self {
            Report::Floating => PinValueRead::Floating(Some(v != 0)),
            Report::Analog => PinValueRead::Analog(v as u32),
            Report::Pwm => PinValueRead::PWM(v as u32),
            Report::Digital => PinValueRead::Digital(v != 0),
        }
    }
}

/// The update of a pin report with the given pin and value fields.
pub open spec fn pin_report(kind: Report, pin: Seq<u8>, val: Seq<u8>) -> Result<
    Update,
    ProtocolError,
> {
    match (parsed_number(pin, usize::MAX as u64), parsed_number(val, kind.limit())) {
        (Some(p), Some(v)) => Ok(Update::Pin(p as usize, kind.value(v))),
        _ => Err(ProtocolError::Malformed),
    }
}

/// The update of a pin report whose two fields come as a pair.
pub open spec fn pair_report(kind: Report, fields: (Seq<u8>, Seq<u8>)) -> Result<
    Update,
    ProtocolError,
> {
    pin_report(kind, fields.0, fields.1)
}

/// The three global parameters that the device confirms.
#[derive(Clone, Copy, PartialEq, Eq, Structural, Debug)]
pub enum Global {
    PwmFreq,
    PwmRes,
    InaRes,
}

/// The update of a global parameter line with the given number field: the
/// frequency has 32 bits, the two resolutions have 8.
pub open spec fn global_report(which: Global, field: Seq<u8>) -> Result<Update, ProtocolError> {
    match which {
        Global::PwmFreq => match parsed_number(field, 0xffff_ffff) {
            Some(n) => Ok(Update::PwmFreq(n as u32)),
            None => Err(ProtocolError::Malformed),
        },
        Global::PwmRes => match parsed_number(field, 0xff) {
            Some(n) => Ok(Update::PwmRes(n as u8)),
            None => Err(ProtocolError::Malformed),
        },
        Global::InaRes => match parsed_number(field, 0xff) {
            Some(n) => Ok(Update::InaRes(n as u8)),
            None => Err(ProtocolError::Malformed),
        },
    }
}

/// The meaning of one trimmed status line. The forms are tried in this order;
/// a line of no known form changes nothing.
pub open spec fn decoded(line: Seq<u8>) -> Result<Update, ProtocolError> {
    if !is_ascii_bytes(line) {
        Err(ProtocolError::NotText)
    } else if line == ascii("!OK"@) {
        Ok(Update::Nothing)
    } else if after(line, "+PICO_GPIO "@) is Some {
        if after(line, "+PICO_GPIO "@)->0 == ascii("V1.0"@) {
            Ok(Update::Version(PicoGPIOVersion::V1_0))
        } else {
            Ok(Update::Version(PicoGPIOVersion::Unknown))
        }
    } else if after(line, "!ERROR:"@) is Some {
        Err(ProtocolError::VersionMismatch)
    } else if after(line, "!PWMFREQ:"@) is Some {
        global_report(Global::PwmFreq, after(line, "!PWMFREQ:"@)->0)
    } else if after(line, "!PWMRES:"@) is Some {
        global_report(Global::PwmRes, after(line, "!PWMRES:"@)->0)
    } else if after(line, "!INARES:"@) is Some {
        global_report(Global::InaRes, after(line, "!INARES:"@)->0)
    } else if line == ascii("!STREAMING"@) {
        Ok(Update::Streaming)
    } else if pair_after(line, "~"@) is Some {
        pair_report(Report::Floating, pair_after(line, "~"@)->0)
    } else if pair_after(line, "/"@) is Some {
        pair_report(Report::Analog, pair_after(line, "/"@)->0)
    } else if pair_after(line, "#"@) is Some {
        pair_report(Report::Pwm, pair_after(line, "#"@)->0)
    } else if pair_after(line, ""@) is Some {
        pair_report(Report::Digital, pair_after(line, ""@)->0)
    } else {
        Ok(Update::Nothing)
    }
}

/// Reads the two fields of a pin report.
pub fn decode_pin(kind: Report, pin: &[u8], val: &[u8]) -> (r: Result<Update, ProtocolError>)
    ensures
        r == pin_report(kind, pin@, val@),
{
    let limit: u64 = match kind {
        Report::Floating => 0xff,
        Report::Analog => 0xffff_ffff,
        Report::Pwm => 0xffff_ffff,
        Report::Digital => 0xff,
    };
    match (parse_number(pin, usize::MAX as u64), parse_number(val, limit)) {
        (Some(p), Some(v)) => {
            let value = match kind {
                Report::Floating => PinValueRead::Floating(Some(v != 0)),
                Report::Analog => PinValueRead::Analog(v as u32),
                Report::Pwm => PinValueRead::PWM(v as u32),
                Report::Digital => PinValueRead::Digital(v != 0),
            };
            Ok(Update::Pin(p as usize, value))
        },
        _ => Err(ProtocolError::Malformed),
    }
}

/// Reads the number field of a global parameter line.
pub fn decode_global(which: Global, field: &[u8]) -> (r: Result<Update, ProtocolError>)
    ensures
        r == global_report(which, field@),
{
    match which {
        Global::PwmFreq => match parse_number(field, 0xffff_ffff) {
            Some(n) => Ok(Update::PwmFreq(n as u32)),
            None => Err(ProtocolError::Malformed),
        },
        Global::PwmRes => match parse_number(field, 0xff) {
            Some(n) => Ok(Update::PwmRes(n as u8)),
            None => Err(ProtocolError::Malformed),
        },
        Global::InaRes => match parse_number(field, 0xff) {
            Some(n) => Ok(Update::InaRes(n as u8)),
            None => Err(ProtocolError::Malformed),
        },
    }
}

/// Decodes one trimmed status line.
pub fn decode_line(line: &[u8]) -> (r: Result<Update, ProtocolError>)
    ensures
        r == decoded(line@),
{
    if !all_ascii(line) {
        return Err(ProtocolError::NotText);
    }
    proof {
        reveal_strlit("!OK");
        reveal_strlit("+PICO_GPIO {}");
        reveal_strlit("+PICO_GPIO ");
        reveal_strlit("V1.0");
        reveal_strlit("!ERROR:{}");
        reveal_strlit("!ERROR:");
        reveal_strlit("!PWMFREQ:{}");
        reveal_strlit("!PWMFREQ:");
        reveal_strlit("!PWMRES:{}");
        reveal_strlit("!PWMRES:");
        reveal_strlit("!INARES:{}");
        reveal_strlit("!INARES:");
        reveal_strlit("!STREAMING");
        assert("+PICO_GPIO {}"@.take(11) =~= "+PICO_GPIO "@);
        assert("!ERROR:{}"@.take(7) =~= "!ERROR:"@);
        assert("!PWMFREQ:{}"@.take(9) =~= "!PWMFREQ:"@);
        assert("!PWMRES:{}"@.take(8) =~= "!PWMRES:"@);
        assert("!INARES:{}"@.take(8) =~= "!INARES:"@);
    }
    if same_text(line, "!OK") {
        return Ok(Update::Nothing);
    }
    if let Some(v) = read_field("+PICO_GPIO {}", line) {
        if same_text(v.as_slice(), "V1.0") {
            return Ok(Update::Version(PicoGPIOVersion::V1_0));
        }
        return Ok(Update::Version(PicoGPIOVersion::Unknown));
    }
    if read_field("!ERROR:{}", line).is_some() {
        return Err(ProtocolError::VersionMismatch);
    }
    if let Some(v) = read_field("!PWMFREQ:{}", line) {
        return decode_global(Global::PwmFreq, v.as_slice());
    }
    if let Some(v) = read_field("!PWMRES:{}", line) {
        return decode_global(Global::PwmRes, v.as_slice());
    }
    if let Some(v) = read_field("!INARES:{}", line) {
        return decode_global(Global::InaRes, v.as_slice());
    }
    if same_text(line, "!STREAMING") {
        return Ok(Update::Streaming);
    }
    proof {
        reveal_strlit("~{}={}");
        reveal_strlit("~");
        reveal_strlit("/{}={}");
        reveal_strlit("/");
        reveal_strlit("#{}={}");
        reveal_strlit("#");
        reveal_strlit("{}={}");
        reveal_strlit("");
        assert("~{}={}"@.take(1) =~= "~"@);
        assert("/{}={}"@.take(1) =~= "/"@);
        assert("#{}={}"@.take(1) =~= "#"@);
        assert("{}={}"@.take(0) =~= ""@);
    }
    if let Some((p, v)) = read_pair("~{}={}", line) {
        return decode_pin(Report::Floating, p.as_slice(), v.as_slice());
    }
    if let Some((p, v)) = read_pair("/{}={}", line) {
        return decode_pin(Report::Analog, p.as_slice(), v.as_slice());
    }
    if let Some((p, v)) = read_pair("#{}={}", line) {
        return decode_pin(Report::Pwm, p.as_slice(), v.as_slice());
    }
    if let Some((p, v)) = read_pair("{}={}", line) {
        return decode_pin(Report::Digital, p.as_slice(), v.as_slice());
    }
    Ok(Update::Nothing)
}

} // verus!
