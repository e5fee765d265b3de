//! Lines sent to the host: newline framing of JSON payloads, the panic
//! report, and the report of the button state.

use vstd::prelude::*;

use crate::decimal;

verus! {

/// Line terminator of every JSON line sent to the host.
pub const LINE_END: u8 = 10;

/// Size of the buffer in which the button report is rendered.
pub const BUTTON_REPORT_BUFFER: usize = 64;

/// Appends `bytes` to `out`.
fn append_bytes(out: &mut Vec<u8>, bytes: &[u8])
    ensures
        final(out)@ == old(out)@ + bytes@,
{
    let mut i: usize = 0;
    while i < bytes.len()
        invariant
            i <= bytes@.len(),
            out@ == old(out)@ + bytes@.subrange(0, i as int),
        decreases bytes@.len() - i,
    {
        out.push(bytes[i]);
        i = i + 1;
        assert(bytes@.subrange(0, i as int) == bytes@.subrange(0, i - 1 as int).push(bytes@[i - 1]));
    }
    assert(bytes@.subrange(0, bytes@.len() as int) == bytes@);
}

/// One line of output: the payload followed by the line terminator.
pub fn frame_line(payload: &[u8]) -> (line: Vec<u8>)
    ensures
        line@ == payload@.push(10u8),
{
    let mut line: Vec<u8> = Vec::new();
    append_bytes(&mut line, payload);
    line.push(LINE_END);
    line
}

/// Opening of the panic report.
pub open spec fn panic_head() -> Seq<u8> {
    vstd::utf8::encode_utf8("{\"log\":\"PANIC! => "@)
}

/// Separator between file and line in the panic report.
pub open spec fn panic_sep() -> Seq<u8> {
    vstd::utf8::encode_utf8(":"@)
}

/// Closing of the panic report.
pub open spec fn panic_tail() -> Seq<u8> {
    vstd::utf8::encode_utf8("\"}\r\n"@)
}

/// The report the firmware sends when it panics: a JSON log line naming
/// the source file and the line, in decimal, where the panic happened.
pub fn panic_report(file: &[u8], line: u32) -> (report: Vec<u8>)
    ensures
        report@ == panic_head() + file@ + panic_sep() + decimal::decimal_bytes(line as nat)
            + panic_tail(),
{
    let mut report: Vec<u8> = Vec::new();
    append_bytes(&mut report, "{\"log\":\"PANIC! => ".as_bytes());
    append_bytes(&mut report, file);
    append_bytes(&mut report, ":".as_bytes());
    let digits = decimal::u32_decimal_bytes(line);
    append_bytes(&mut report, digits.as_slice());
    append_bytes(&mut report, "\"}\r\n".as_bytes());
    report
}

/// The panic report is the bytes `{"log":"PANIC! => `, the file, `:`, the
/// line in decimal, and `"}` followed by carriage return and line feed.
pub proof fn law_panic_report_bytes()
    ensures
        panic_head() == seq![
            123u8, 34, 108, 111, 103, 34, 58, 34, 80, 65, 78, 73, 67, 33, 32, 61, 62, 32
        ],
        panic_sep() == seq![58u8],
        panic_tail() == seq![34u8, 125, 13, 10],
{
    reveal_strlit("{\"log\":\"PANIC! => ");
    reveal_strlit(":");
    reveal_strlit("\"}\r\n");
    vstd::utf8::is_ascii_chars_encode_utf8("{\"log\":\"PANIC! => "@);
    vstd::utf8::is_ascii_chars_encode_utf8(":"@);
    vstd::utf8::is_ascii_chars_encode_utf8("\"}\r\n"@);
    assert(panic_head() =~= seq![
        123u8, 34, 108, 111, 103, 34, 58, 34, 80, 65, 78, 73, 67, 33, 32, 61, 62, 32
    ]);
    assert(panic_sep() =~= seq![58u8]);
    assert(panic_tail() =~= seq![34u8, 125, 13, 10]);
}

/// The state of the button, as reported to the host: the first value is
/// 1 when the button input is high, 0 when it is low; the others are 0.
#[derive(Clone, Copy, Debug, PartialEq, Eq)]
pub struct IoValue {
    pub val: [u8; 10],
}

impl IoValue {
    /// The report for a button input at level `high`.
    pub fn from_button(high: bool) -> (v: IoValue)
        ensures
            v.val@.len() == 10,
            v.val@[0] == (if high { 1u8 } else { 0u8 }),
            forall|i: int| 1 <= i < 10 ==> v.val@[i] == 0,
    {
        let first: u8 = if high { 1 } else { 0 };
        IoValue { val: [first, 0, 0, 0, 0, 0, 0, 0, 0, 0] }
    }
}

/// The edge interrupts of the button input.
#[derive(Clone, Copy, Debug, PartialEq, Eq, Structural)]
pub enum Edge {
    /// Falling edge.
    Low,
    /// Rising edge.
    High,
}

/// What the button interrupt handler does besides toggling the LED: the
/// report to send, and the pending edge interrupt to acknowledge.
#[derive(Debug)]
pub struct ButtonEvent {
    pub report: IoValue,
    pub clear: Option<Edge>,
}

/// Handles a button interrupt: reports the button level, and acknowledges
/// the falling-edge interrupt when it is pending, else the rising-edge one
/// when that is pending.
pub fn on_button_interrupt(level_high: bool, low_pending: bool, high_pending: bool) -> (event:
    ButtonEvent)
    ensures
        event.report.val@[0] == (if level_high { 1u8 } else { 0u8 }),
        forall|i: int| 1 <= i < 10 ==> event.report.val@[i] == 0,
        event.clear == (if low_pending {
            Some(Edge::Low)
        } else if high_pending {
            Some(Edge::High)
        } else {
            None
        }),
{
    let report = IoValue::from_button(level_high);
    let clear = if low_pending {
        Some(Edge::Low)
    } else if high_pending {
        Some(Edge::High)
    } else {
        None
    };
    ButtonEvent { report, clear }
}

} // verus!
