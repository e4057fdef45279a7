use pico_gpio::command::{encode_pwm, encode_read, encode_stream, encode_write};
use pico_gpio::line::decode_line;
use pico_gpio::number::parse_number;
use pico_gpio::text::trim;
use pico_gpio::{
    Phase, PicoGPIO, DEFAULT_PINS, PicoGPIOVersion, PinInput, PinValueRead, PinValueWrite, ProtocolError,
    PwmStreamMode, Reply, Request, Tables, Update,
};

/// A device that answers each command through `respond` and can be made to
/// refuse writes.
struct Sim {
    input: Vec<u8>,
    output: Vec<u8>,
    respond: fn(&[u8]) -> Vec<u8>,
    fail_after: Option<usize>,
    sends: usize,
}

fn sim(respond: fn(&[u8]) -> Vec<u8>) -> Sim {
    Sim { input: Vec::new(), output: Vec::new(), respond, fail_after: None, sends: 0 }
}

fn silent(_: &[u8]) -> Vec<u8> {
    Vec::new()
}

fn ok_only(_: &[u8]) -> Vec<u8> {
    b"!OK\n".to_vec()
}

/// Confirms `out P=v` with `P=v`, `pwm P=v` with `#P=v`, `float P` with `~P=0`,
/// `in P` with `P=1`, `ina P` with `/P=512`, and the PWM setup with both
/// parameters.
fn echo(cmd: &[u8]) -> Vec<u8> {
    let text = String::from_utf8(cmd.to_vec()).unwrap();
    let mut out = String::new();
    for line in text.split("\r\n") {
        if let Some(rest) = line.strip_prefix("out ") {
            out.push_str(&format!("{}\n", rest));
        } else if let Some(rest) = line.strip_prefix("pwmres ") {
            out.push_str(&format!("!PWMRES:{}\n", rest));
        } else if let Some(rest) = line.strip_prefix("pwmfreq ") {
            out.push_str(&format!("!PWMFREQ:{}\n", rest));
        } else if let Some(rest) = line.strip_prefix("pwm ") {
            out.push_str(&format!("#{}\n", rest));
        } else if let Some(rest) = line.strip_prefix("float ") {
            out.push_str(&format!("~{}=0\n", rest));
        } else if let Some(rest) = line.strip_prefix("ina ") {
            out.push_str(&format!("/{}=512\n", rest));
        } else if let Some(rest) = line.strip_prefix("in^ ") {
            out.push_str(&format!("{}=1\n", rest));
        } else if let Some(rest) = line.strip_prefix("in ") {
            out.push_str(&format!("{}=1\n", rest));
        }
    }
    out.into_bytes()
}

fn freq_then_res(_: &[u8]) -> Vec<u8> {
    b"!PWMFREQ:1000\n!PWMRES:10\n".to_vec()
}

fn res_then_freq(_: &[u8]) -> Vec<u8> {
    b"!PWMRES:10\n!PWMFREQ:1000\n".to_vec()
}

fn freq_alone(_: &[u8]) -> Vec<u8> {
    b"!PWMFREQ:1000\n".to_vec()
}

#[derive(Debug, PartialEq)]
enum Stop {
    Timeout,
    WriteFailed,
    Fatal(ProtocolError),
}

fn drive(gpio: &mut PicoGPIO, first: Request, dev: &mut Sim) -> Result<(), Stop> {
    let mut req = first;
    loop {
        let reply = match req {
            Request::Finished => return Ok(()),
            Request::Send(bytes) => {
                if dev.fail_after == Some(dev.sends) {
                    return Err(Stop::WriteFailed);
                }
                dev.sends += 1;
                dev.output.extend_from_slice(&bytes);
                let answer = (dev.respond)(&bytes);
                dev.input.extend_from_slice(&answer);
                Reply::Sent
            }
            Request::Buffered => Reply::Buffered(dev.input.len() as u32),
            Request::ReadByte => {
                if dev.input.is_empty() {
                    return Err(Stop::Timeout);
                }
                Reply::Byte(dev.input.remove(0))
            }
            Request::ReadChunk => {
                if dev.input.is_empty() {
                    return Err(Stop::Timeout);
                }
                let n = dev.input.len().min(1024);
                Reply::Chunk(dev.input.drain(..n).collect())
            }
        };
        req = match gpio.step(reply) {
            Ok(next) => next,
            Err(e) => return Err(Stop::Fatal(e)),
        };
    }
}

/// A session that was opened against a device that sends the known banner.
fn fresh(pins: usize) -> PicoGPIO {
    let (mut gpio, first) = PicoGPIO::new(pins);
    let mut dev = sim(silent);
    dev.input.extend_from_slice(b"+PICO_GPIO V1.0\n");
    assert_eq!(drive(&mut gpio, first, &mut dev), Ok(()));
    assert_eq!(dev.output, b"\r\n".to_vec());
    gpio
}

#[test]
fn opening_waits_for_the_banner() {
    let (mut gpio, first) = PicoGPIO::new(256);
    assert!(matches!(&first, Request::Send(bytes) if bytes == b"\r\n"));
    assert_eq!(gpio.phase, Phase::Sending);
    assert!(gpio.tables.version == PicoGPIOVersion::Unknown);
    let mut dev = sim(ok_only);
    assert_eq!(drive(&mut gpio, first, &mut dev), Err(Stop::Timeout));
    assert!(!gpio.tables.greeted);
    assert!(gpio.phase != Phase::Idle);
    dev.input.extend_from_slice(b"+PICO_GPIO V1.0\n");
    assert_eq!(drive(&mut gpio, Request::ReadByte, &mut dev), Ok(()));
    assert!(gpio.tables.greeted);
    assert!(gpio.tables.version == PicoGPIOVersion::V1_0);
    assert_eq!(gpio.phase, Phase::Idle);
}

#[test]
fn opening_takes_an_unknown_version_from_the_banner() {
    let (mut gpio, first) = PicoGPIO::new(8);
    let mut dev = sim(silent);
    dev.input.extend_from_slice(b"+PICO_GPIO V3.1\n");
    assert_eq!(drive(&mut gpio, first, &mut dev), Ok(()));
    assert!(gpio.tables.greeted);
    assert!(gpio.tables.version == PicoGPIOVersion::Unknown);
}

#[test]
fn blocking_write_is_read_back_from_cache() {
    for pin in [0usize, 1, 25, 255] {
        for v in [false, true] {
            let mut gpio = fresh(256);
            let mut dev = sim(echo);
            let req = gpio.set_manual(pin, PinValueWrite::Digital(v), true);
            assert_eq!(drive(&mut gpio, req, &mut dev), Ok(()));
            let req = gpio.get_manual(pin, PinInput::PDown, true, true);
            assert!(matches!(req, Request::Finished));
            let got = gpio.reading(pin);
            assert!(got.matches(&PinValueWrite::Digital(v)));
            assert_eq!(got, PinValueRead::Digital(v));
            assert_eq!(gpio.level(pin), Some(v));
            assert_eq!(gpio.tables.intended.pins[pin], PinValueWrite::Digital(v));
        }
    }
}

#[test]
fn blocking_write_waits_for_the_confirmation() {
    let mut gpio = fresh(256);
    let mut dev = sim(ok_only);
    let req = gpio.set_manual(3, PinValueWrite::Digital(true), true);
    assert_eq!(drive(&mut gpio, req, &mut dev), Err(Stop::Timeout));
    assert_eq!(gpio.reading(3), PinValueRead::Floating(None));
    assert_eq!(gpio.tables.intended.pins[3], PinValueWrite::Digital(true));
}

#[test]
fn write_without_block_does_not_wait() {
    let mut gpio = fresh(256);
    let mut dev = sim(silent);
    let req = gpio.set_manual(3, PinValueWrite::PWM(77), false);
    assert_eq!(drive(&mut gpio, req, &mut dev), Ok(()));
    assert_eq!(dev.output, b"pwm 3=77\r\n".to_vec());
    assert_eq!(gpio.reading(3), PinValueRead::Floating(None));
    assert_eq!(gpio.phase, Phase::Idle);
}

#[test]
fn parses_the_four_pin_reports() {
    let mut t = Tables::new(256);
    assert_eq!(t.parse_line(b"~3=1"), Ok(()));
    assert_eq!(t.actual.pins[3], PinValueRead::Floating(Some(true)));
    assert_eq!(t.parse_line(b"/7=512"), Ok(()));
    assert_eq!(t.actual.pins[7], PinValueRead::Analog(512));
    assert_eq!(t.parse_line(b"#2=128"), Ok(()));
    assert_eq!(t.actual.pins[2], PinValueRead::PWM(128));
    assert_eq!(t.parse_line(b"4=0"), Ok(()));
    assert_eq!(t.actual.pins[4], PinValueRead::Digital(false));
    for p in 0..256 {
        assert_eq!(t.intended.pins[p], PinValueWrite::Floating);
    }
}

#[test]
fn decodes_every_form_in_order() {
    assert_eq!(decode_line(b"!OK"), Ok(Update::Nothing));
    assert_eq!(decode_line(b"+PICO_GPIO V1.0"), Ok(Update::Version(PicoGPIOVersion::V1_0)));
    assert_eq!(decode_line(b"+PICO_GPIO V9.9"), Ok(Update::Version(PicoGPIOVersion::Unknown)));
    assert_eq!(decode_line(b"+PICO_GPIO "), Ok(Update::Version(PicoGPIOVersion::Unknown)));
    assert_eq!(decode_line(b"!ERROR:version"), Err(ProtocolError::VersionMismatch));
    assert_eq!(decode_line(b"!ERROR:"), Err(ProtocolError::VersionMismatch));
    assert_eq!(decode_line(b"!PWMFREQ:1000"), Ok(Update::PwmFreq(1000)));
    assert_eq!(decode_line(b"!PWMFREQ:4294967295"), Ok(Update::PwmFreq(4294967295)));
    assert_eq!(decode_line(b"!PWMRES:10"), Ok(Update::PwmRes(10)));
    assert_eq!(decode_line(b"!INARES:12"), Ok(Update::InaRes(12)));
    assert_eq!(decode_line(b"!STREAMING"), Ok(Update::Streaming));
    assert_eq!(decode_line(b"~3=1"), Ok(Update::Pin(3, PinValueRead::Floating(Some(true)))));
    assert_eq!(decode_line(b"~3=0"), Ok(Update::Pin(3, PinValueRead::Floating(Some(false)))));
    assert_eq!(decode_line(b"~3=2"), Ok(Update::Pin(3, PinValueRead::Floating(Some(true)))));
    assert_eq!(decode_line(b"/7=512"), Ok(Update::Pin(7, PinValueRead::Analog(512))));
    assert_eq!(decode_line(b"#2=128"), Ok(Update::Pin(2, PinValueRead::PWM(128))));
    assert_eq!(decode_line(b"4=0"), Ok(Update::Pin(4, PinValueRead::Digital(false))));
    assert_eq!(decode_line(b"+4=+1"), Ok(Update::Pin(4, PinValueRead::Digital(true))));
    assert_eq!(decode_line(b"hello"), Ok(Update::Nothing));
    assert_eq!(decode_line(b""), Ok(Update::Nothing));
    assert_eq!(decode_line(b"!OK "), Ok(Update::Nothing));
    assert_eq!(decode_line(b"!STREAMING!"), Ok(Update::Nothing));
}

#[test]
fn malformed_numbers_are_fatal() {
    assert_eq!(decode_line(b"!PWMFREQ:abc"), Err(ProtocolError::Malformed));
    assert_eq!(decode_line(b"!PWMFREQ:"), Err(ProtocolError::Malformed));
    assert_eq!(decode_line(b"!PWMFREQ:4294967296"), Err(ProtocolError::Malformed));
    assert_eq!(decode_line(b"!PWMRES:256"), Err(ProtocolError::Malformed));
    assert_eq!(decode_line(b"!INARES:-1"), Err(ProtocolError::Malformed));
    assert_eq!(decode_line(b"~x=1"), Err(ProtocolError::Malformed));
    assert_eq!(decode_line(b"/7="), Err(ProtocolError::Malformed));
    assert_eq!(decode_line(b"#2=1=2"), Err(ProtocolError::Malformed));
    assert_eq!(decode_line(b"4=256"), Err(ProtocolError::Malformed));
    assert_eq!(decode_line(b"a=b"), Err(ProtocolError::Malformed));
    assert_eq!(decode_line(b"=1"), Err(ProtocolError::Malformed));
}

#[test]
fn bytes_outside_ascii_are_fatal() {
    assert_eq!(decode_line(&[0x34, 0x3d, 0xff]), Err(ProtocolError::NotText));
    assert_eq!(decode_line(&[0xc3, 0xa9]), Err(ProtocolError::NotText));
}

#[test]
fn report_for_a_pin_out_of_range_is_fatal() {
    let mut t = Tables::new(8);
    assert_eq!(t.parse_line(b"8=1"), Err(ProtocolError::UnknownPin));
    assert_eq!(t.parse_line(b"7=1"), Ok(()));
    assert_eq!(t.actual.pins[7], PinValueRead::Digital(true));
    assert_eq!(t.apply(Update::Pin(9, PinValueRead::Analog(1))), Err(ProtocolError::UnknownPin));
}

#[test]
fn global_parameters_and_version_are_confirmed() {
    let mut t = Tables::new(4);
    assert_eq!(t.parse_line(b"+PICO_GPIO V1.0"), Ok(()));
    assert!(t.version == PicoGPIOVersion::V1_0);
    assert_eq!(t.parse_line(b"!PWMFREQ:115200"), Ok(()));
    assert_eq!(t.parse_line(b"!PWMRES:12"), Ok(()));
    assert_eq!(t.parse_line(b"!INARES:9"), Ok(()));
    assert_eq!(t.parse_line(b"!STREAMING"), Ok(()));
    assert_eq!(t.actual.pwmfreq, 115200);
    assert_eq!(t.actual.pwmres, 12);
    assert_eq!(t.actual.inares, 9);
    assert!(t.actual.streaming);
    assert_eq!(t.intended.pwmfreq, 0);
    assert_eq!(t.intended.pwmres, 8);
    assert_eq!(t.intended.inares, 10);
    assert!(!t.intended.streaming);
}

#[test]
fn the_version_is_set_by_the_first_banner_only() {
    let mut t = Tables::new(4);
    assert!(!t.greeted);
    assert_eq!(t.parse_line(b"+PICO_GPIO V1.0"), Ok(()));
    assert!(t.greeted);
    assert_eq!(t.parse_line(b"+PICO_GPIO V7"), Ok(()));
    assert!(t.version == PicoGPIOVersion::V1_0);

    let mut t = Tables::new(4);
    assert_eq!(t.parse_line(b"+PICO_GPIO V7"), Ok(()));
    assert_eq!(t.parse_line(b"+PICO_GPIO V1.0"), Ok(()));
    assert!(t.version == PicoGPIOVersion::Unknown);
}

#[test]
fn version_error_ends_processing_once() {
    let mut t = Tables::new(8);
    let r = t.absorb(b"1=1\n!ERROR:version\n2=1\n!ERROR:again\n", 0);
    assert_eq!(r, Err(ProtocolError::VersionMismatch));
    assert_eq!(t.actual.pins[1], PinValueRead::Digital(true));
    assert_eq!(t.actual.pins[2], PinValueRead::Floating(None));
}

#[test]
fn version_error_ends_the_operation() {
    let mut gpio = fresh(8);
    let mut dev = sim(silent);
    dev.input.extend_from_slice(b"!ERROR:version\n2=1\n");
    let req = gpio.poll(1);
    assert_eq!(drive(&mut gpio, req, &mut dev), Err(Stop::Fatal(ProtocolError::VersionMismatch)));
    assert_eq!(gpio.phase, Phase::Idle);
    assert_eq!(gpio.reading(2), PinValueRead::Floating(None));
}

#[test]
fn init_pwm_waits_for_both_confirmations_in_either_order() {
    for respond in [freq_then_res as fn(&[u8]) -> Vec<u8>, res_then_freq] {
        let mut gpio = fresh(256);
        let mut dev = sim(respond);
        let req = gpio.init_pwm(1000, 10, true);
        assert_eq!(drive(&mut gpio, req, &mut dev), Ok(()));
        assert_eq!(dev.output, b"pwmres 10\r\npwmfreq 1000\r\n".to_vec());
        assert_eq!(gpio.tables.actual.pwmfreq, 1000);
        assert_eq!(gpio.tables.actual.pwmres, 10);
        assert_eq!(gpio.tables.intended.pwmfreq, 1000);
        assert_eq!(gpio.tables.intended.pwmres, 10);
    }
}

#[test]
fn init_pwm_is_not_done_after_one_confirmation() {
    let mut gpio = fresh(256);
    let mut dev = sim(freq_alone);
    let req = gpio.init_pwm(1000, 10, true);
    assert_eq!(drive(&mut gpio, req, &mut dev), Err(Stop::Timeout));
    assert_eq!(gpio.tables.actual.pwmfreq, 1000);
    assert_eq!(gpio.tables.actual.pwmres, 8);
    assert_eq!(gpio.phase, Phase::Heading);
    dev.input.extend_from_slice(b"!PWMRES:10\n");
    assert_eq!(drive(&mut gpio, Request::ReadByte, &mut dev), Ok(()));
    assert_eq!(gpio.tables.actual.pwmres, 10);
}

#[test]
fn drain_takes_every_record_of_a_burst() {
    let mut t = Tables::new(8);
    assert_eq!(t.absorb(b"1=1\n2=1\n3=1\n", 2), Ok(0));
    assert_eq!(t.actual.pins[1], PinValueRead::Digital(true));
    assert_eq!(t.actual.pins[2], PinValueRead::Digital(true));
    assert_eq!(t.actual.pins[3], PinValueRead::Digital(true));

    let mut gpio = fresh(8);
    let mut dev = sim(silent);
    dev.input.extend_from_slice(b"1=1\n2=1\n3=1\n");
    let req = gpio.poll(2);
    assert_eq!(drive(&mut gpio, req, &mut dev), Ok(()));
    assert_eq!(gpio.reading(1), PinValueRead::Digital(true));
    assert_eq!(gpio.reading(2), PinValueRead::Digital(true));
    assert_eq!(gpio.reading(3), PinValueRead::Digital(true));
    assert!(dev.input.is_empty());
}

#[test]
fn each_line_feed_counts_as_one_line() {
    let mut t = Tables::new(8);
    assert_eq!(t.absorb(b"1=1\n", 5), Ok(4));
    assert_eq!(t.absorb(b"1=1\n", 0), Ok(0));
    assert_eq!(t.absorb(b"1=1\n2=1\n", 2), Ok(0));
    assert_eq!(t.absorb(b"1=1\n2=1\n3=1\n", 5), Ok(2));
    assert_eq!(t.absorb(b"\n\n", 3), Ok(1));
    assert_eq!(t.absorb(b"", 7), Ok(7));
}

#[test]
fn what_follows_the_last_line_feed_is_taken_but_not_counted() {
    let mut t = Tables::new(8);
    assert_eq!(t.absorb(b"1=0", 1), Ok(1));
    assert_eq!(t.actual.pins[1], PinValueRead::Digital(false));
    assert_eq!(t.absorb(b"2=1\n3=1", 2), Ok(1));
    assert_eq!(t.actual.pins[2], PinValueRead::Digital(true));
    assert_eq!(t.actual.pins[3], PinValueRead::Digital(true));
}

#[test]
fn a_drain_of_two_lines_is_not_done_after_one() {
    let mut gpio = fresh(8);
    let mut dev = sim(silent);
    dev.input.extend_from_slice(b"3=1\n");
    let req = gpio.poll(2);
    assert_eq!(drive(&mut gpio, req, &mut dev), Err(Stop::Timeout));
    assert_eq!(gpio.reading(3), PinValueRead::Digital(true));
    assert_eq!(gpio.reading(4), PinValueRead::Floating(None));
    assert_eq!(gpio.phase, Phase::Heading);
    assert_eq!(gpio.min_lines, 1);
    dev.input.extend_from_slice(b"4=1\n");
    assert_eq!(drive(&mut gpio, Request::ReadByte, &mut dev), Ok(()));
    assert_eq!(gpio.reading(3), PinValueRead::Digital(true));
    assert_eq!(gpio.reading(4), PinValueRead::Digital(true));
    assert_eq!(gpio.min_lines, 0);
}

#[test]
fn records_are_trimmed() {
    let mut t = Tables::new(8);
    assert_eq!(t.absorb(b"  4=1\r\n\t!PWMRES:9 \r\n", 0), Ok(0));
    assert_eq!(t.actual.pins[4], PinValueRead::Digital(true));
    assert_eq!(t.actual.pwmres, 9);
    assert_eq!(trim(b" \t\r\n"), b"");
    assert_eq!(trim(b"\x0b\x0c a b \n"), b"a b");
    assert_eq!(trim(b"ab"), b"ab");
}

#[test]
fn drain_of_nothing_finishes_at_once() {
    let mut gpio = fresh(8);
    let mut dev = sim(silent);
    let req = gpio.poll(0);
    assert_eq!(drive(&mut gpio, req, &mut dev), Ok(()));
    let req = gpio.poll(1);
    assert_eq!(drive(&mut gpio, req, &mut dev), Err(Stop::Timeout));
}

#[test]
fn a_burst_is_assembled_until_it_ends_in_a_line_feed() {
    let mut gpio = fresh(8);
    let req = gpio.poll(1);
    assert!(matches!(req, Request::Buffered));
    assert!(matches!(gpio.step(Reply::Buffered(2)), Ok(Request::ReadByte)));
    assert!(matches!(gpio.step(Reply::Byte(b'5')), Ok(Request::ReadChunk)));
    assert!(matches!(gpio.step(Reply::Chunk(b"=".to_vec())), Ok(Request::ReadChunk)));
    assert!(matches!(gpio.step(Reply::Chunk(Vec::new())), Ok(Request::ReadChunk)));
    assert_eq!(gpio.reading(5), PinValueRead::Floating(None));
    assert!(matches!(gpio.step(Reply::Chunk(b"1\n".to_vec())), Ok(Request::Buffered)));
    assert_eq!(gpio.reading(5), PinValueRead::Digital(true));
    assert!(matches!(gpio.step(Reply::Buffered(0)), Ok(Request::Finished)));
}

#[test]
fn a_reply_out_of_turn_is_refused() {
    let mut gpio = fresh(8);
    assert!(matches!(gpio.step(Reply::Sent), Err(ProtocolError::OutOfTurn)));
    let _ = gpio.poll(0);
    assert!(matches!(gpio.step(Reply::Byte(1)), Err(ProtocolError::OutOfTurn)));
    assert_eq!(gpio.phase, Phase::Polling);
}

#[test]
fn fresh_read_floats_the_pin_and_waits_for_its_kind() {
    let mut gpio = fresh(256);
    let mut dev = sim(echo);
    let req = gpio.set_manual(5, PinValueWrite::Digital(false), false);
    assert_eq!(drive(&mut gpio, req, &mut dev), Ok(()));
    dev.output.clear();
    let req = gpio.get_manual(5, PinInput::Analog, false, true);
    assert_eq!(gpio.tables.intended.pins[5], PinValueWrite::Floating);
    assert_eq!(drive(&mut gpio, req, &mut dev), Ok(()));
    assert_eq!(dev.output, b"ina 5\r\n".to_vec());
    assert_eq!(gpio.reading(5), PinValueRead::Analog(512));
    assert_eq!(gpio.level(5), None);
}

#[test]
fn short_hands_follow_the_blocking_policy() {
    let mut gpio = fresh(256);
    let mut dev = sim(echo);
    let req = gpio.d_out(25, true);
    assert_eq!(drive(&mut gpio, req, &mut dev), Ok(()));
    assert_eq!(gpio.reading(25), PinValueRead::Digital(true));
    let req = gpio.pwm_out(2, 128);
    assert_eq!(drive(&mut gpio, req, &mut dev), Ok(()));
    assert_eq!(gpio.reading(2), PinValueRead::PWM(128));
    let req = gpio.float(25);
    assert_eq!(drive(&mut gpio, req, &mut dev), Ok(()));
    assert_eq!(gpio.reading(25), PinValueRead::Floating(Some(false)));
    let req = gpio.float_in(4);
    assert_eq!(drive(&mut gpio, req, &mut dev), Ok(()));
    assert_eq!(gpio.level(4), Some(false));
    let req = gpio.pulldn_in(6);
    assert_eq!(drive(&mut gpio, req, &mut dev), Ok(()));
    assert_eq!(gpio.level(6), Some(true));
    let req = gpio.pullup_in(7);
    assert_eq!(drive(&mut gpio, req, &mut dev), Ok(()));
    assert_eq!(gpio.level(7), Some(true));
    assert_eq!(
        dev.output,
        b"out 25=1\r\npwm 2=128\r\nfloat 25\r\nfloat 4\r\nin 6\r\nin^ 7\r\n".to_vec()
    );

    gpio.tables.blocking = false;
    let mut quiet = sim(silent);
    let req = gpio.d_out(9, true);
    assert_eq!(drive(&mut gpio, req, &mut quiet), Ok(()));
    assert_eq!(gpio.reading(9), PinValueRead::Floating(None));
}

#[test]
fn commands_are_encoded_exactly() {
    assert_eq!(encode_write(3, PinValueWrite::Floating), b"float 3\r\n".to_vec());
    assert_eq!(encode_write(25, PinValueWrite::Digital(true)), b"out 25=1\r\n".to_vec());
    assert_eq!(encode_write(0, PinValueWrite::Digital(false)), b"out 0=0\r\n".to_vec());
    assert_eq!(encode_write(255, PinValueWrite::PWM(4294967295)), b"pwm 255=4294967295\r\n".to_vec());
    assert_eq!(encode_read(7, PinInput::Floating), b"float 7\r\n".to_vec());
    assert_eq!(encode_read(7, PinInput::Analog), b"ina 7\r\n".to_vec());
    assert_eq!(encode_read(7, PinInput::PDown), b"in 7\r\n".to_vec());
    assert_eq!(encode_read(7, PinInput::PUp), b"in^ 7\r\n".to_vec());
    assert_eq!(encode_pwm(1000, 10), b"pwmres 10\r\npwmfreq 1000\r\n".to_vec());
    assert_eq!(encode_stream(12, PwmStreamMode::PWM), b"pwmstream 12".to_vec());
    assert_eq!(encode_stream(0, PwmStreamMode::Audio), b"audiostream 0".to_vec());
    assert_eq!(PicoGPIO::greeting(), b"\r\n".to_vec());
}

#[test]
fn numbers_are_read_as_unsigned_decimals() {
    assert_eq!(parse_number(b"0", 255), Some(0));
    assert_eq!(parse_number(b"007", 255), Some(7));
    assert_eq!(parse_number(b"+5", 255), Some(5));
    assert_eq!(parse_number(b"255", 255), Some(255));
    assert_eq!(parse_number(b"256", 255), None);
    assert_eq!(parse_number(b"", 255), None);
    assert_eq!(parse_number(b"+", 255), None);
    assert_eq!(parse_number(b"-1", 255), None);
    assert_eq!(parse_number(b"1 ", 255), None);
    assert_eq!(parse_number(b"++1", 255), None);
    assert_eq!(parse_number(b"18446744073709551615", u64::MAX), Some(u64::MAX));
    assert_eq!(parse_number(b"18446744073709551616", u64::MAX), None);
    assert_eq!(parse_number(b"99999999999999999999999", u64::MAX), None);
}

#[test]
fn confirmed_values_answer_written_ones_by_kind() {
    assert!(PinValueRead::Floating(None).matches(&PinValueWrite::Floating));
    assert!(PinValueRead::Floating(Some(true)).matches(&PinValueWrite::Floating));
    assert!(PinValueRead::Digital(true).matches(&PinValueWrite::Digital(true)));
    assert!(!PinValueRead::Digital(true).matches(&PinValueWrite::Digital(false)));
    assert!(PinValueRead::PWM(5).matches(&PinValueWrite::PWM(5)));
    assert!(!PinValueRead::PWM(5).matches(&PinValueWrite::PWM(6)));
    assert!(!PinValueRead::Analog(5).matches(&PinValueWrite::PWM(5)));
    assert!(!PinValueRead::Analog(5).matches(&PinValueWrite::Floating));
    assert!(!PinValueRead::Digital(true).matches(&PinValueWrite::Floating));

    assert!(PinValueRead::Floating(None).matches_in(&PinInput::Floating));
    assert!(PinValueRead::Analog(1).matches_in(&PinInput::Analog));
    assert!(PinValueRead::Digital(false).matches_in(&PinInput::PDown));
    assert!(PinValueRead::Digital(false).matches_in(&PinInput::PUp));
    assert!(!PinValueRead::Digital(false).matches_in(&PinInput::Analog));
    assert!(!PinValueRead::PWM(1).matches_in(&PinInput::Analog));
    assert!(!PinValueRead::Analog(1).matches_in(&PinInput::Floating));
    assert!(!PinValueRead::Floating(Some(true)).matches_in(&PinInput::PDown));
}

#[test]
fn a_new_session_has_every_pin_floating() {
    let (gpio, first) = PicoGPIO::new(256);
    assert!(matches!(first, Request::Send(_)));
    assert_eq!(gpio.tables.intended.pins.len(), 256);
    assert_eq!(gpio.tables.actual.pins.len(), 256);
    for p in 0..256 {
        assert_eq!(gpio.tables.intended.pins[p], PinValueWrite::Floating);
        assert_eq!(gpio.reading(p), PinValueRead::Floating(None));
    }
    assert!(gpio.tables.version == PicoGPIOVersion::Unknown);
    assert!(!gpio.tables.greeted);
    assert!(gpio.tables.blocking);
    assert_eq!(gpio.tables.intended.pwmfreq, 0);
    assert_eq!(gpio.tables.intended.pwmres, 8);
    assert_eq!(gpio.tables.actual.inares, 10);
    assert_eq!(gpio.phase, Phase::Sending);
    assert_eq!(DEFAULT_PINS, 256);
}

#[test]
fn failed_hand_over_gives_the_session_back() {
    let mut gpio = fresh(256);
    let mut dev = sim(echo);
    let req = gpio.init_pwm(115200, 10, true);
    assert_eq!(drive(&mut gpio, req, &mut dev), Ok(()));
    let req = gpio.set_manual(3, PinValueWrite::Digital(true), true);
    assert_eq!(drive(&mut gpio, req, &mut dev), Ok(()));

    dev.fail_after = Some(dev.sends);
    let req = gpio.pwmstream(0);
    assert_eq!(gpio.tables.intended.pwmres, 8);
    assert_eq!(gpio.fallback, Some(10));
    assert_eq!(drive(&mut gpio, req, &mut dev), Err(Stop::WriteFailed));
    gpio.abandon();
    let mut gpio = match gpio.into_stream() {
        Ok(_) => panic!("no stream was started"),
        Err(session) => session,
    };
    assert_eq!(gpio.tables.intended.pwmfreq, 115200);
    assert_eq!(gpio.tables.intended.pwmres, 10);
    assert_eq!(gpio.fallback, None);
    assert_eq!(gpio.tables.intended.pins[3], PinValueWrite::Digital(true));
    assert_eq!(gpio.tables.actual.pwmfreq, 115200);
    assert_eq!(gpio.tables.actual.pwmres, 10);
    assert_eq!(gpio.reading(3), PinValueRead::Digital(true));

    dev.fail_after = None;
    let req = gpio.set_manual(4, PinValueWrite::Digital(false), true);
    assert_eq!(drive(&mut gpio, req, &mut dev), Ok(()));
    assert_eq!(gpio.reading(4), PinValueRead::Digital(false));
}

#[test]
fn failed_hand_over_after_a_setup_without_block_keeps_the_intended_parameters() {
    for mode in [PwmStreamMode::PWM, PwmStreamMode::Audio] {
        let mut gpio = fresh(256);
        let mut dev = sim(silent);
        let req = gpio.init_pwm(1000, 10, false);
        assert_eq!(drive(&mut gpio, req, &mut dev), Ok(()));
        dev.fail_after = Some(dev.sends);
        let req = match mode {
            PwmStreamMode::PWM => gpio.pwmstream(3),
            PwmStreamMode::Audio => gpio.audiostream(3),
        };
        assert_eq!(drive(&mut gpio, req, &mut dev), Err(Stop::WriteFailed));
        gpio.abandon();
        assert_eq!(gpio.phase, Phase::Idle);
        assert_eq!(gpio.tables.intended.pwmfreq, 1000);
        assert_eq!(gpio.tables.intended.pwmres, 10);
        assert_eq!(gpio.tables.actual.pwmfreq, 0);
        assert_eq!(gpio.tables.actual.pwmres, 8);
        assert!(gpio.into_stream().is_err());
    }
}

#[test]
fn failed_stream_command_gives_the_session_back() {
    let mut gpio = fresh(256);
    let mut dev = sim(echo);
    let req = gpio.init_pwm(44100, 12, true);
    assert_eq!(drive(&mut gpio, req, &mut dev), Ok(()));
    dev.fail_after = Some(dev.sends + 1);
    let req = gpio.audiostream(2);
    assert_eq!(drive(&mut gpio, req, &mut dev), Err(Stop::WriteFailed));
    assert_eq!(gpio.phase, Phase::Handoff);
    gpio.abandon();
    assert_eq!(gpio.tables.intended.pwmfreq, 44100);
    assert_eq!(gpio.tables.intended.pwmres, 12);
    assert!(gpio.into_stream().is_err());
}

#[test]
fn abandon_outside_a_hand_over_changes_no_table() {
    let mut gpio = fresh(8);
    let mut dev = sim(silent);
    dev.fail_after = Some(0);
    let req = gpio.init_pwm(500, 9, true);
    assert_eq!(drive(&mut gpio, req, &mut dev), Err(Stop::WriteFailed));
    gpio.abandon();
    assert_eq!(gpio.tables.intended.pwmfreq, 500);
    assert_eq!(gpio.tables.intended.pwmres, 9);
    assert_eq!(gpio.phase, Phase::Idle);
}

#[test]
fn hand_over_sets_eight_bits_then_sends_the_stream_command() {
    let mut gpio = fresh(256);
    let mut dev = sim(echo);
    let req = gpio.init_pwm(44100, 12, true);
    assert_eq!(drive(&mut gpio, req, &mut dev), Ok(()));
    dev.output.clear();
    let req = gpio.audiostream(0);
    assert_eq!(drive(&mut gpio, req, &mut dev), Ok(()));
    assert_eq!(dev.output, b"pwmres 8\r\npwmfreq 44100\r\naudiostream 0".to_vec());
    let mut stream = match gpio.into_stream() {
        Ok(s) => s,
        Err(_) => panic!("the stream was started"),
    };
    assert!(stream.get_mode() == PwmStreamMode::Audio);
    assert_eq!(stream.submit_byte(7), vec![7u8]);
    assert_eq!(stream.submit_data(&[1, 2, 3]), vec![1u8, 2, 3]);
    assert_eq!(stream.submit_data(&[]), Vec::<u8>::new());

    let mut gpio = fresh(256);
    let mut dev = sim(echo);
    let req = gpio.pwmstream(9);
    assert_eq!(drive(&mut gpio, req, &mut dev), Ok(()));
    assert_eq!(dev.output, b"pwmres 8\r\npwmfreq 0\r\npwmstream 9".to_vec());
    match gpio.into_stream() {
        Ok(s) => assert!(s.get_mode() == PwmStreamMode::PWM),
        Err(_) => panic!("the stream was started"),
    }
}
