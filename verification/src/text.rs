//! Bounded text built on `arrayvec::ArrayString`, used for the messages
//! that go back to the host.

use arrayvec::ArrayString;
use vstd::prelude::*;

use crate::decimal;

verus! {

/// Capacity, in bytes, of the text buffers used for messages.
pub const MSG_CAPACITY: usize = 100;

#[verifier::external_type_specification]
#[verifier::external_body]
pub struct ExArrayString<const CAP: usize>(ArrayString<CAP>);

/// The characters held by a message buffer.
pub uninterp spec fn msg_text(s: ArrayString<100>) -> Seq<char>;

/// `ArrayString::new` of arrayvec: an empty buffer.
/// Trusted: the buffer holds no character.
#[verifier::external_body]
fn msg_new() -> (s: ArrayString<100>)
    ensures
        msg_text(s) == Seq::<char>::empty(),
{
    ArrayString::<100>::new()
}

/// `ArrayString::push_str` of arrayvec.
/// Trusted: appends the characters of `piece`; arrayvec panics when the
/// UTF-8 bytes would exceed the capacity, which `requires` rules out.
#[verifier::external_body]
fn msg_push_str(s: &mut ArrayString<100>, piece: &str)
    requires
        vstd::utf8::encode_utf8(msg_text(*old(s))).len() + vstd::utf8::encode_utf8(piece@).len() <= 100,
    ensures
        msg_text(*final(s)) == msg_text(*old(s)) + piece@,
{
    s.push_str(piece)
}

/// `ArrayString::as_str` of arrayvec, copied into an owned `String`.
/// Trusted: the string has the characters held by the buffer.
#[verifier::external_body]
fn msg_to_string(s: &ArrayString<100>) -> (text: String)
    ensures
        text@ == msg_text(*s),
{
    String::from(s.as_str())
}

} // verus!

verus! {

/// The commands whose argument is checked, each with its own wording of
/// the "unknown argument" message.
#[derive(Clone, Copy, Debug, PartialEq, Eq, Structural)]
pub enum MessageKind {
    /// The argument of a set-io-mode command.
    SetIoMode,
    /// The argument of a write command.
    Write,
    /// The command code itself.
    Command,
}

/// The fixed text that opens the "unknown argument" message of `kind`.
pub open spec fn unknown_arg_prefix(kind: MessageKind) -> Seq<char> {
    match kind {
        MessageKind::SetIoMode => "Unknown arg value for set io mode command ("@,
        MessageKind::Write => "Unknown arg value for write command ("@,
        MessageKind::Command => "Unknown arg value for command ("@,
    }
}

/// The whole "unknown argument" message: the prefix of `kind`, the
/// offending value in decimal, and a closing parenthesis.
pub open spec fn unknown_arg_text(kind: MessageKind, value: u8) -> Seq<char> {
    unknown_arg_prefix(kind) + decimal::decimal_chars(value as nat) + ")"@
}

/// Builds the message reporting that `value` is not an accepted argument,
/// in a 100-byte `ArrayString`, as the firmware does.
pub fn unknown_arg_message(kind: MessageKind, value: u8) -> (msg: String)
    ensures
        msg@ == unknown_arg_text(kind, value),
{
    let prefix: &str = match kind {
        MessageKind::SetIoMode => "Unknown arg value for set io mode command (",
        MessageKind::Write => "Unknown arg value for write command (",
        MessageKind::Command => "Unknown arg value for command (",
    };
    proof {
        reveal_strlit("Unknown arg value for set io mode command (");
        reveal_strlit("Unknown arg value for write command (");
        reveal_strlit("Unknown arg value for command (");
        reveal_strlit(")");
    }
    let digits = decimal::u8_decimal_text(value);
    let close: &str = ")";
    let ghost d = decimal::decimal_chars(value as nat);
    proof {
        decimal::lemma_decimal_len(value as nat);
        decimal::lemma_decimal_chars_ascii(value as nat);
        vstd::utf8::is_ascii_chars_encode_utf8(prefix@);
        vstd::utf8::is_ascii_chars_encode_utf8(d);
        vstd::utf8::is_ascii_chars_encode_utf8(close@);
    }
    let mut txt = msg_new();
    msg_push_str(&mut txt, prefix);
    proof {
        vstd::utf8::is_ascii_chars_concat(prefix@ + d, prefix@, d);
        vstd::utf8::is_ascii_chars_encode_utf8(prefix@ + d);
    }
    msg_push_str(&mut txt, digits.as_str());
    msg_push_str(&mut txt, close);
    msg_to_string(&txt)
}

/// Every "unknown argument" message is ASCII and fits the 100-byte
/// message buffer.
pub proof fn law_unknown_arg_text_fits(kind: MessageKind, value: u8)
    ensures
        vstd::utf8::is_ascii_chars(unknown_arg_text(kind, value)),
        vstd::utf8::encode_utf8(unknown_arg_text(kind, value)).len() <= MSG_CAPACITY,
{
    reveal_strlit("Unknown arg value for set io mode command (");
    reveal_strlit("Unknown arg value for write command (");
    reveal_strlit("Unknown arg value for command (");
    reveal_strlit(")");
    let prefix = unknown_arg_prefix(kind);
    let d = decimal::decimal_chars(value as nat);
    decimal::lemma_decimal_len(value as nat);
    decimal::lemma_decimal_chars_ascii(value as nat);
    vstd::utf8::is_ascii_chars_concat(prefix + d, prefix, d);
    vstd::utf8::is_ascii_chars_concat(prefix + d + ")"@, prefix + d, ")"@);
    vstd::utf8::is_ascii_chars_encode_utf8(prefix + d + ")"@);
}

} // verus!
