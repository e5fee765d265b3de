//! The command protocol: what the firmware does with each command that
//! reaches it over the serial link, and the answer it sends back.
//!
//! The board keeps one mode per I/O pin. A command either reconfigures a
//! pin, drives an output pin, reads a pin, asks for the protocol version,
//! or is refused with an error answer.

use vstd::prelude::*;

use crate::decimal;
use crate::text;
use crate::text::MessageKind;

verus! {

/// Number of I/O pins of the rp2040 that the protocol drives.
pub const NB_IO_RP2040: usize = 27;

/// Highest pin index of the rp2040, plus one.
pub const MAX_IO_INDEX_RP2040: usize = 28;

/// Size of the buffer in which an answer is rendered as JSON.
pub const SIZE_ANS_BUFFER: usize = 400;

/// Command code: configure the mode of a pin.
pub const COD_SET_MODE: u8 = 0;

/// Command code: drive an output pin low or high.
pub const COD_WRITE: u8 = 1;

/// Command code: read a pin.
pub const COD_READ: u8 = 2;

/// Command code: ask for the protocol version.
pub const COD_VERSION: u8 = 10;

/// Major version reported by the version command.
pub const VERSION_MAJOR: u8 = 0;

/// Minor version reported by the version command.
pub const VERSION_MINOR: u8 = 1;

/// A command as decoded from the host's JSON line.
#[derive(Clone, Copy, Debug, PartialEq, Eq, Structural)]
pub struct Command {
    /// 0 set mode / 1 write value / 2 read value / 10 version.
    pub cod: u8,
    /// Index of the pin (X means gpioX).
    pub pin: u8,
    /// For set mode: 0 pull-up input, 1 pull-down input, 2 output.
    /// For write: the level, 0 or 1. Unused otherwise.
    pub arg: u8,
}

/// Status of an answer.
#[derive(Clone, Copy, Debug, PartialEq, Eq, Structural)]
pub enum AnsStatus {
    /// The command was carried out.
    Success,
    /// The command was refused.
    Error,
}

impl AnsStatus {
    /// The status code carried in the answer.
    pub open spec fn spec_code(self) -> u8 {
        match self {
            AnsStatus::Success => 0,
            AnsStatus::Error => 1,
        }
    }

    /// The status code carried in the answer: 0 for `Success`, 1 for `Error`.
    pub fn code(self) -> (c: u8)
        ensures
            c == self.spec_code(),
    {
        match self {
            AnsStatus::Success => 0,
            AnsStatus::Error => 1,
        }
    }
}

/// An answer sent back to the host, one JSON object per line.
#[derive(Debug)]
pub struct Answer {
    /// Status code (see `AnsStatus`).
    pub sts: u8,
    /// Pin field of the answer.
    pub pin: u8,
    /// Argument field of the answer.
    pub arg: u8,
    /// Text message.
    pub msg: String,
}

/// The mathematical content of an answer.
#[verifier::ext_equal]
pub struct AnswerModel {
    pub sts: u8,
    pub pin: u8,
    pub arg: u8,
    pub msg: Seq<char>,
}

impl View for Answer {
    type V = AnswerModel;

    open spec fn view(&self) -> AnswerModel {
        AnswerModel { sts: self.sts, pin: self.pin, arg: self.arg, msg: self.msg@ }
    }
}

/// Electrical configuration of a pin.
#[derive(Clone, Copy, Debug, PartialEq, Eq, Structural)]
pub enum IoMode {
    /// Input without pull resistor: the mode every pin starts in.
    FloatingInput,
    /// Input with pull-up resistor.
    PullUpInput,
    /// Input with pull-down resistor.
    PullDownInput,
    /// Output whose level can also be read back.
    ReadableOutput,
}

/// Level driven on an output pin.
#[derive(Clone, Copy, Debug, PartialEq, Eq, Structural)]
pub enum PinLevel {
    Low,
    High,
}

/// What the board has to do to its pins for a command.
#[derive(Clone, Copy, Debug, PartialEq, Eq, Structural)]
pub enum IoAction {
    /// Nothing.
    Nothing,
    /// Reconfigure pin `pin` into `mode`.
    SetMode { pin: u8, mode: IoMode },
    /// Drive output pin `pin` to `level`.
    Write { pin: u8, level: PinLevel },
    /// Read the level of pin `pin`; the answer is built from what was read
    /// (see `read_answer`).
    Read { pin: u8 },
}

/// The outcome of a command: the pin action, performed first, then the
/// answer to send, if any.
#[derive(Debug)]
pub struct Reply {
    pub action: IoAction,
    pub answer: Option<Answer>,
}

/// The mathematical content of a reply.
#[verifier::ext_equal]
pub struct ReplyModel {
    pub action: IoAction,
    pub answer: Option<AnswerModel>,
}

impl View for Reply {
    type V = ReplyModel;

    open spec fn view(&self) -> ReplyModel {
        ReplyModel {
            action: self.action,
            answer: match self.answer {
                Some(a) => Some(a@),
                None => None,
            },
        }
    }
}

/// The mode requested by the argument of a set-mode command.
pub open spec fn mode_for_arg(arg: u8) -> Option<IoMode> {
    if arg == 0 {
        Some(IoMode::PullUpInput)
    } else if arg == 1 {
        Some(IoMode::PullDownInput)
    } else if arg == 2 {
        Some(IoMode::ReadableOutput)
    } else {
        None
    }
}

/// The level requested by the argument of a write command.
pub open spec fn level_for_arg(arg: u8) -> Option<PinLevel> {
    if arg == 0 {
        Some(PinLevel::Low)
    } else if arg == 1 {
        Some(PinLevel::High)
    } else {
        None
    }
}

/// Whether a pin in mode `m` can be driven.
pub open spec fn is_output(m: IoMode) -> bool {
    m == IoMode::ReadableOutput
}

/// A successful answer with the given argument field and no text.
pub open spec fn ok_answer(arg: u8) -> AnswerModel {
    AnswerModel { sts: AnsStatus::Success.spec_code(), pin: 0, arg, msg: Seq::empty() }
}

/// An error answer with the given text.
pub open spec fn error_answer(msg: Seq<char>) -> AnswerModel {
    AnswerModel { sts: AnsStatus::Error.spec_code(), pin: 0, arg: 0, msg }
}

/// Text of the answer to a line that is not a valid command.
pub open spec fn parse_error_text() -> Seq<char> {
    "error parsing command"@
}

/// Reply to a set-mode command.
pub open spec fn set_mode_reply(cmd: Command) -> ReplyModel {
    match mode_for_arg(cmd.arg) {
        Some(m) => ReplyModel {
            action: IoAction::SetMode { pin: cmd.pin, mode: m },
            answer: Some(ok_answer(0)),
        },
        None => ReplyModel {
            action: IoAction::Nothing,
            answer: Some(error_answer(text::unknown_arg_text(MessageKind::SetIoMode, cmd.arg))),
        },
    }
}

/// Pin modes after a set-mode command.
pub open spec fn set_mode_modes(modes: Seq<IoMode>, cmd: Command) -> Seq<IoMode> {
    match mode_for_arg(cmd.arg) {
        Some(m) => modes.update(cmd.pin as int, m),
        None => modes,
    }
}

/// Reply to a write command.
pub open spec fn write_reply(cmd: Command) -> ReplyModel {
    match level_for_arg(cmd.arg) {
        Some(l) => ReplyModel {
            action: IoAction::Write { pin: cmd.pin, level: l },
            answer: Some(ok_answer(0)),
        },
        None => ReplyModel {
            action: IoAction::Nothing,
            answer: Some(error_answer(text::unknown_arg_text(MessageKind::Write, cmd.arg))),
        },
    }
}

/// Reply to a read command: read the addressed pin; the answer follows
/// from the level read.
pub open spec fn read_reply(cmd: Command) -> ReplyModel {
    ReplyModel { action: IoAction::Read { pin: cmd.pin }, answer: None }
}

/// The answer to a read of pin `pin` that found the level `high`: success,
/// the pin, and the level in the argument field (1 high, 0 low).
pub open spec fn read_answer_model(pin: u8, high: bool) -> AnswerModel {
    AnswerModel {
        sts: AnsStatus::Success.spec_code(),
        pin,
        arg: if high {
            1
        } else {
            0
        },
        msg: Seq::empty(),
    }
}

/// The answer sent for `cmd` once its action is done, `high` being the
/// level found when the action is a read.
pub open spec fn answer_after(cmd: Command, high: bool) -> Option<AnswerModel> {
    match command_reply(cmd).action {
        IoAction::Read { pin } => Some(read_answer_model(pin, high)),
        _ => command_reply(cmd).answer,
    }
}

/// Reply to the version command: the major version in the pin field, the
/// minor version in the argument field.
pub open spec fn version_reply() -> ReplyModel {
    ReplyModel {
        action: IoAction::Nothing,
        answer: Some(
            AnswerModel {
                sts: AnsStatus::Success.spec_code(),
                pin: VERSION_MAJOR,
                arg: VERSION_MINOR,
                msg: Seq::empty(),
            },
        ),
    }
}

/// Reply to a command code that the firmware does not know.
pub open spec fn unknown_command_reply(cmd: Command) -> ReplyModel {
    ReplyModel {
        action: IoAction::Nothing,
        answer: Some(error_answer(text::unknown_arg_text(MessageKind::Command, cmd.cod))),
    }
}

/// Reply to a line that could not be decoded as a command.
pub open spec fn parse_error_reply() -> ReplyModel {
    ReplyModel { action: IoAction::Nothing, answer: Some(error_answer(parse_error_text())) }
}

/// Reply to any decoded command.
pub open spec fn command_reply(cmd: Command) -> ReplyModel {
    if cmd.cod == COD_SET_MODE {
        set_mode_reply(cmd)
    } else if cmd.cod == COD_WRITE {
        write_reply(cmd)
    } else if cmd.cod == COD_READ {
        read_reply(cmd)
    } else if cmd.cod == COD_VERSION {
        version_reply()
    } else {
        unknown_command_reply(cmd)
    }
}

/// Pin modes after any decoded command.
pub open spec fn command_modes(modes: Seq<IoMode>, cmd: Command) -> Seq<IoMode> {
    if cmd.cod == COD_SET_MODE {
        set_mode_modes(modes, cmd)
    } else {
        modes
    }
}

/// The commands that the firmware handles without a fault: set-mode, write
/// and read address one of its pins, and a valid write only goes to a pin
/// in output mode (the pin driver refuses to drive an input, and the
/// firmware stops there).
pub open spec fn accepts(modes: Seq<IoMode>, cmd: Command) -> bool {
    &&& cmd.cod == COD_SET_MODE ==> cmd.pin < NB_IO_RP2040
    &&& cmd.cod == COD_READ ==> cmd.pin < NB_IO_RP2040
    &&& cmd.cod == COD_WRITE ==> {
        &&& cmd.pin < NB_IO_RP2040
        &&& (level_for_arg(cmd.arg) is Some ==> is_output(modes[cmd.pin as int]))
    }
}

/// Once a pin has been configured as an output, every valid write to it is
/// handled, and answered with success.
pub proof fn law_output_mode_enables_writes(modes: Seq<IoMode>, pin: u8, level_arg: u8)
    requires
        modes.len() == NB_IO_RP2040,
        pin < NB_IO_RP2040,
        level_arg <= 1,
    ensures
        accepts(
            command_modes(modes, Command { cod: COD_SET_MODE, pin, arg: 2 }),
            Command { cod: COD_WRITE, pin, arg: level_arg },
        ),
        command_reply(Command { cod: COD_WRITE, pin, arg: level_arg }).answer == Some(ok_answer(0)),
{
}

/// A command changes the mode of no pin but the one it addresses; only a
/// set-mode command with a valid argument changes anything, and it gives
/// the addressed pin the requested mode.
pub proof fn law_only_addressed_pin_changes(modes: Seq<IoMode>, cmd: Command)
    requires
        modes.len() == NB_IO_RP2040,
        accepts(modes, cmd),
    ensures
        command_modes(modes, cmd).len() == modes.len(),
        forall|q: int|
            0 <= q < modes.len() && q != cmd.pin ==> #[trigger] command_modes(modes, cmd)[q]
                == modes[q],
        (cmd.cod != COD_SET_MODE || mode_for_arg(cmd.arg) is None) ==> command_modes(modes, cmd)
            == modes,
        cmd.cod == COD_SET_MODE && mode_for_arg(cmd.arg) is Some ==> command_modes(
            modes,
            cmd,
        )[cmd.pin as int] == mode_for_arg(cmd.arg)->0,
{
}

/// Every command is answered exactly once: a read once the pin has been
/// read, with the level read, any other command by its reply. An answer
/// reports success exactly when the command was carried out (a pin
/// action, or the version query), and its status is 0 or 1.
pub proof fn law_one_answer_per_command(cmd: Command, high: bool)
    ensures
        answer_after(cmd, high) is Some,
        (command_reply(cmd).answer is Some) <==> cmd.cod != COD_READ,
        cmd.cod == COD_READ ==> command_reply(cmd).action == (IoAction::Read { pin: cmd.pin })
            && answer_after(cmd, high) == Some(read_answer_model(cmd.pin, high)),
        answer_after(cmd, high) matches Some(a) ==> {
            &&& (a.sts == 0 <==> (command_reply(cmd).action != IoAction::Nothing || cmd.cod
                == COD_VERSION))
            &&& (a.sts == 0 || a.sts == 1)
        },
{
}

/// The dispatch of a command hands set-mode commands to the set-mode
/// handling and write commands to the write handling, with the same effect
/// on the pins and the same reply.
pub proof fn law_dispatch_routes(modes: Seq<IoMode>, cmd: Command)
    ensures
        cmd.cod == COD_SET_MODE ==> command_modes(modes, cmd) == set_mode_modes(modes, cmd)
            && command_reply(cmd) == set_mode_reply(cmd),
        cmd.cod == COD_WRITE ==> command_modes(modes, cmd) == modes && command_reply(cmd)
            == write_reply(cmd),
        cmd.cod == COD_READ ==> command_modes(modes, cmd) == modes && command_reply(cmd)
            == read_reply(cmd),
{
}

/// A set-mode command on a pin of the bank is carried out exactly for the
/// arguments 0 (pull-up input), 1 (pull-down input) and 2 (output): the pin
/// takes that mode, nothing else changes, and the answer is a success with
/// pin 0, arg 0 and no text. Any other argument is refused: no action, every
/// pin keeps its mode, and the answer is an error (status 1, pin 0, arg 0)
/// naming the set-mode command and the argument.
pub proof fn law_set_mode_arguments(modes: Seq<IoMode>, cmd: Command)
    requires
        modes.len() == NB_IO_RP2040,
        cmd.cod == 0,
        cmd.pin < NB_IO_RP2040,
    ensures
        cmd.arg == 0 ==> command_modes(modes, cmd) == modes.update(
            cmd.pin as int,
            IoMode::PullUpInput,
        ) && command_reply(cmd).action == (IoAction::SetMode {
            pin: cmd.pin,
            mode: IoMode::PullUpInput,
        }),
        cmd.arg == 1 ==> command_modes(modes, cmd) == modes.update(
            cmd.pin as int,
            IoMode::PullDownInput,
        ) && command_reply(cmd).action == (IoAction::SetMode {
            pin: cmd.pin,
            mode: IoMode::PullDownInput,
        }),
        cmd.arg == 2 ==> command_modes(modes, cmd) == modes.update(
            cmd.pin as int,
            IoMode::ReadableOutput,
        ) && command_reply(cmd).action == (IoAction::SetMode {
            pin: cmd.pin,
            mode: IoMode::ReadableOutput,
        }),
        cmd.arg <= 2 ==> command_reply(cmd).answer == Some(
            AnswerModel { sts: 0, pin: 0, arg: 0, msg: Seq::empty() },
        ),
        cmd.arg > 2 ==> {
            &&& command_modes(modes, cmd) == modes
            &&& command_reply(cmd).action == IoAction::Nothing
            &&& command_reply(cmd).answer == Some(
                AnswerModel {
                    sts: 1,
                    pin: 0,
                    arg: 0,
                    msg: "Unknown arg value for set io mode command ("@ + decimal::decimal_chars(
                        cmd.arg as nat,
                    ) + ")"@,
                },
            )
        },
{
}

/// A write command drives its pin exactly when its argument is 0 (low) or
/// 1 (high), answering a success with pin 0, arg 0 and no text; any other
/// argument is refused with no action and an error answer (status 1, pin
/// 0, arg 0) naming the write command and the argument. A write never
/// changes a pin's mode.
pub proof fn law_write_arguments(modes: Seq<IoMode>, cmd: Command)
    requires
        cmd.cod == 1,
    ensures
        command_modes(modes, cmd) == modes,
        cmd.arg == 0 ==> command_reply(cmd).action == (IoAction::Write {
            pin: cmd.pin,
            level: PinLevel::Low,
        }),
        cmd.arg == 1 ==> command_reply(cmd).action == (IoAction::Write {
            pin: cmd.pin,
            level: PinLevel::High,
        }),
        cmd.arg <= 1 ==> command_reply(cmd).answer == Some(
            AnswerModel { sts: 0, pin: 0, arg: 0, msg: Seq::empty() },
        ),
        cmd.arg >= 2 ==> {
            &&& command_reply(cmd).action == IoAction::Nothing
            &&& command_reply(cmd).answer == Some(
                AnswerModel {
                    sts: 1,
                    pin: 0,
                    arg: 0,
                    msg: "Unknown arg value for write command ("@ + decimal::decimal_chars(
                        cmd.arg as nat,
                    ) + ")"@,
                },
            )
        },
{
}

/// Which commands the firmware handles without a fault, whatever the pin
/// modes: a set-mode or a read of a pin of the bank always; a write to a
/// pin of the bank when its argument is not a level (2 or more), or when
/// the pin is an output; every other command code always. Set-mode, write
/// and read commands addressing a pin beyond the bank are never handled.
pub proof fn law_accepted_commands(modes: Seq<IoMode>, cmd: Command)
    requires
        modes.len() == NB_IO_RP2040,
    ensures
        (cmd.cod == 0 || cmd.cod == 2) ==> (accepts(modes, cmd) <==> cmd.pin < NB_IO_RP2040),
        cmd.cod == 1 ==> (accepts(modes, cmd) <==> (cmd.pin < NB_IO_RP2040 && (cmd.arg >= 2
            || modes[cmd.pin as int] == IoMode::ReadableOutput))),
        (cmd.cod != 0 && cmd.cod != 1 && cmd.cod != 2) ==> accepts(modes, cmd),
{
}

/// The version query is answered with version 0.1 (pin 0 = major, arg 1
/// = minor), a success with no text, whatever the pin and argument fields
/// of the query; it asks for no action and changes no pin.
pub proof fn law_version_query(modes: Seq<IoMode>, cmd: Command, other: Command)
    requires
        cmd.cod == 10,
        other.cod == 10,
    ensures
        command_reply(cmd).action == IoAction::Nothing,
        command_reply(cmd).answer == Some(AnswerModel { sts: 0, pin: 0, arg: 1, msg: Seq::empty() }),
        command_reply(cmd) == command_reply(other),
        command_modes(modes, cmd) == modes,
{
}

/// A read of a pin asks for exactly that pin to be read and changes no
/// pin; its answer, once the pin is read, is a success carrying the pin
/// and the level: 1 when the pin is high, 0 when it is low, and no text.
pub proof fn law_read_command(modes: Seq<IoMode>, cmd: Command, high: bool)
    requires
        cmd.cod == 2,
    ensures
        command_modes(modes, cmd) == modes,
        command_reply(cmd).action == (IoAction::Read { pin: cmd.pin }),
        command_reply(cmd).answer is None,
        answer_after(cmd, high) == Some(
            AnswerModel {
                sts: 0,
                pin: cmd.pin,
                arg: if high {
                    1u8
                } else {
                    0u8
                },
                msg: Seq::empty(),
            },
        ),
        answer_after(cmd, true) != answer_after(cmd, false),
{
}

/// A command code other than 0, 1, 2 and 10 is refused: no action, no pin
/// changes, and an error answer (status 1, pin 0, arg 0) naming the code.
/// A line that is not a command is answered with the error "error parsing
/// command".
pub proof fn law_unknown_command_and_parse_error(modes: Seq<IoMode>, cmd: Command)
    requires
        cmd.cod != 0 && cmd.cod != 1 && cmd.cod != 2 && cmd.cod != 10,
    ensures
        command_modes(modes, cmd) == modes,
        command_reply(cmd).action == IoAction::Nothing,
        command_reply(cmd).answer == Some(
            AnswerModel {
                sts: 1,
                pin: 0,
                arg: 0,
                msg: "Unknown arg value for command ("@ + decimal::decimal_chars(cmd.cod as nat)
                    + ")"@,
            },
        ),
        parse_error_reply() == (ReplyModel {
            action: IoAction::Nothing,
            answer: Some(
                AnswerModel { sts: 1, pin: 0, arg: 0, msg: "error parsing command"@ },
            ),
        }),
{
}

/// A refused command leaves every pin as it was and asks for no action.
pub proof fn law_refusal_keeps_state(modes: Seq<IoMode>, cmd: Command)
    requires
        modes.len() == NB_IO_RP2040,
        accepts(modes, cmd),
        command_reply(cmd).answer matches Some(a) && a.sts == AnsStatus::Error.spec_code(),
    ensures
        command_modes(modes, cmd) == modes,
        command_reply(cmd).action == IoAction::Nothing,
{
}

/// The protocol state of the application: the mode of each pin.
pub struct PicohaIo {
    modes: Vec<IoMode>,
}

impl View for PicohaIo {
    type V = Seq<IoMode>;

    closed spec fn view(&self) -> Seq<IoMode> {
        self.modes@
    }
}

impl PicohaIo {
    /// One mode per pin.
    pub open spec fn wf(&self) -> bool {
        self@.len() == NB_IO_RP2040
    }

    /// The application at start-up: every pin is a floating input.
    pub fn new() -> (app: PicohaIo)
        ensures
            app.wf(),
            forall|i: int| 0 <= i < NB_IO_RP2040 ==> app@[i] == IoMode::FloatingInput,
    {
        let mut modes: Vec<IoMode> = Vec::new();
        let mut i: usize = 0;
        while i < NB_IO_RP2040
            invariant
                i <= NB_IO_RP2040,
                modes@.len() == i,
                forall|j: int| 0 <= j < i ==> modes@[j] == IoMode::FloatingInput,
            decreases NB_IO_RP2040 - i,
        {
            modes.push(IoMode::FloatingInput);
            i = i + 1;
        }
        PicohaIo { modes }
    }

    /// The current mode of pin `pin`.
    pub fn pin_mode(&self, pin: usize) -> (m: IoMode)
        requires
            self.wf(),
            pin < NB_IO_RP2040,
        ensures
            m == self@[pin as int],
    {
        self.modes[pin]
    }

    /// Whether `cmd` is one that the firmware handles without a fault.
    pub fn can_process(&self, cmd: &Command) -> (ok: bool)
        requires
            self.wf(),
        ensures
            ok == accepts(self@, *cmd),
    {
        if cmd.cod == COD_SET_MODE || cmd.cod == COD_READ {
            (cmd.pin as usize) < NB_IO_RP2040
        } else if cmd.cod == COD_WRITE {
            if (cmd.pin as usize) >= NB_IO_RP2040 {
                false
            } else if cmd.arg <= 1 {
                match self.modes[cmd.pin as usize] {
                    IoMode::ReadableOutput => true,
                    _ => false,
                }
            } else {
                true
            }
        } else {
            true
        }
    }

    /// Configures the mode of a pin: argument 0 pull-up input, 1 pull-down
    /// input, 2 output. Any other argument is refused with an error answer
    /// and leaves the pin as it is.
    pub fn process_set_io_mode(&mut self, cmd: &Command) -> (reply: Reply)
        requires
            old(self).wf(),
            cmd.pin < NB_IO_RP2040,
        ensures
            final(self).wf(),
            final(self)@ == set_mode_modes(old(self)@, *cmd),
            reply@ == set_mode_reply(*cmd),
    {
        let idx = cmd.pin as usize;
        let mode = if cmd.arg == 0 {
            Some(IoMode::PullUpInput)
        } else if cmd.arg == 1 {
            Some(IoMode::PullDownInput)
        } else if cmd.arg == 2 {
            Some(IoMode::ReadableOutput)
        } else {
            None
        };
        match mode {
            Some(m) => {
                self.modes[idx] = m;
                Reply {
                    action: IoAction::SetMode { pin: cmd.pin, mode: m },
                    answer: Some(answer_ok(0)),
                }
            },
            None => Reply {
                action: IoAction::Nothing,
                answer: Some(answer_error(text::unknown_arg_message(MessageKind::SetIoMode, cmd.arg))),
            },
        }
    }

    /// Drives an output pin: argument 0 low, 1 high. Any other argument is
    /// refused with an error answer.
    pub fn process_write_io(&self, cmd: &Command) -> (reply: Reply)
        requires
            self.wf(),
            cmd.pin < NB_IO_RP2040,
            level_for_arg(cmd.arg) is Some ==> is_output(self@[cmd.pin as int]),
        ensures
            reply@ == write_reply(*cmd),
    {
        if cmd.arg == 0 {
            Reply {
                action: IoAction::Write { pin: cmd.pin, level: PinLevel::Low },
                answer: Some(answer_ok(0)),
            }
        } else if cmd.arg == 1 {
            Reply {
                action: IoAction::Write { pin: cmd.pin, level: PinLevel::High },
                answer: Some(answer_ok(0)),
            }
        } else {
            Reply {
                action: IoAction::Nothing,
                answer: Some(answer_error(text::unknown_arg_message(MessageKind::Write, cmd.arg))),
            }
        }
    }

    /// Reads a pin: asks for the level of the addressed pin; the answer is
    /// built by `read_answer` from the level read.
    pub fn process_read_io(&self, cmd: &Command) -> (reply: Reply)
        requires
            cmd.pin < NB_IO_RP2040,
        ensures
            reply@ == read_reply(*cmd),
    {
        Reply { action: IoAction::Read { pin: cmd.pin }, answer: None }
    }

    /// Handles one decoded command.
    pub fn process_command(&mut self, cmd: &Command) -> (reply: Reply)
        requires
            old(self).wf(),
            accepts(old(self)@, *cmd),
        ensures
            final(self).wf(),
            final(self)@ == command_modes(old(self)@, *cmd),
            reply@ == command_reply(*cmd),
    {
        if cmd.cod == COD_SET_MODE {
            self.process_set_io_mode(cmd)
        } else if cmd.cod == COD_WRITE {
            self.process_write_io(cmd)
        } else if cmd.cod == COD_READ {
            self.process_read_io(cmd)
        } else if cmd.cod == COD_VERSION {
            Reply {
                action: IoAction::Nothing,
                answer: Some(
                    Answer {
                        sts: AnsStatus::Success.code(),
                        pin: VERSION_MAJOR,
                        arg: VERSION_MINOR,
                        msg: String::new(),
                    },
                ),
            }
        } else {
            Reply {
                action: IoAction::Nothing,
                answer: Some(answer_error(text::unknown_arg_message(MessageKind::Command, cmd.cod))),
            }
        }
    }

    /// Handles one received line: `None` when it could not be decoded as
    /// a command, which is answered with an error.
    pub fn process_parsed(&mut self, parsed: Option<Command>) -> (reply: Reply)
        requires
            old(self).wf(),
            parsed matches Some(cmd) ==> accepts(old(self)@, cmd),
        ensures
            final(self).wf(),
            match parsed {
                Some(cmd) => {
                    &&& final(self)@ == command_modes(old(self)@, cmd)
                    &&& reply@ == command_reply(cmd)
                },
                None => {
                    &&& final(self)@ == old(self)@
                    &&& reply@ == parse_error_reply()
                },
            },
    {
        match parsed {
            Some(cmd) => self.process_command(&cmd),
            None => Reply {
                action: IoAction::Nothing,
                answer: Some(answer_error("error parsing command".to_owned())),
            },
        }
    }
}

/// The answer to a read of pin `pin` that found the level `high`: success,
/// the pin, and 1 for high or 0 for low in the argument field.
pub fn read_answer(pin: u8, high: bool) -> (a: Answer)
    ensures
        a@ == read_answer_model(pin, high),
{
    let level: u8 = if high {
        1
    } else {
        0
    };
    Answer { sts: AnsStatus::Success.code(), pin, arg: level, msg: String::new() }
}

/// A successful answer with argument field `arg` and no text.
fn answer_ok(arg: u8) -> (a: Answer)
    ensures
        a@ == ok_answer(arg),
{
    Answer { sts: AnsStatus::Success.code(), pin: 0, arg, msg: String::new() }
}

/// An error answer carrying `msg`.
fn answer_error(msg: String) -> (a: Answer)
    ensures
        a@ == error_answer(msg@),
{
    Answer { sts: AnsStatus::Error.code(), pin: 0, arg: 0, msg }
}

} // verus!
