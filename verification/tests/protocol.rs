use picoha_io::protocol::{
    read_answer, AnsStatus, Command, IoAction, IoMode, PicohaIo, PinLevel, Reply, NB_IO_RP2040,
};
use picoha_io::text::{unknown_arg_message, MessageKind};

fn cmd(cod: u8, pin: u8, arg: u8) -> Command {
    Command { cod, pin, arg }
}

fn answer_of(reply: &Reply) -> (u8, u8, u8, String) {
    let a = reply.answer.as_ref().expect("an answer");
    (a.sts, a.pin, a.arg, a.msg.clone())
}

#[test]
fn status_codes() {
    assert_eq!(AnsStatus::Success.code(), 0);
    assert_eq!(AnsStatus::Error.code(), 1);
}

#[test]
fn all_pins_start_as_floating_inputs() {
    let app = PicohaIo::new();
    for pin in 0..NB_IO_RP2040 {
        assert_eq!(app.pin_mode(pin), IoMode::FloatingInput);
    }
}

#[test]
fn unknown_arg_messages_render_the_value_in_decimal() {
    assert_eq!(
        unknown_arg_message(MessageKind::SetIoMode, 7),
        "Unknown arg value for set io mode command (7)"
    );
    assert_eq!(
        unknown_arg_message(MessageKind::Write, 255),
        "Unknown arg value for write command (255)"
    );
    assert_eq!(
        unknown_arg_message(MessageKind::Command, 0),
        "Unknown arg value for command (0)"
    );
    assert_eq!(
        unknown_arg_message(MessageKind::Command, 42),
        "Unknown arg value for command (42)"
    );
}

#[test]
fn set_mode_configures_the_addressed_pin() {
    let mut app = PicohaIo::new();
    let reply = app.process_set_io_mode(&cmd(0, 5, 0));
    assert_eq!(reply.action, IoAction::SetMode { pin: 5, mode: IoMode::PullUpInput });
    assert_eq!(answer_of(&reply), (0, 0, 0, String::new()));
    assert_eq!(app.pin_mode(5), IoMode::PullUpInput);

    let reply = app.process_set_io_mode(&cmd(0, 5, 1));
    assert_eq!(reply.action, IoAction::SetMode { pin: 5, mode: IoMode::PullDownInput });
    assert_eq!(app.pin_mode(5), IoMode::PullDownInput);

    let reply = app.process_set_io_mode(&cmd(0, 26, 2));
    assert_eq!(reply.action, IoAction::SetMode { pin: 26, mode: IoMode::ReadableOutput });
    assert_eq!(app.pin_mode(26), IoMode::ReadableOutput);
    assert_eq!(app.pin_mode(4), IoMode::FloatingInput);
    assert_eq!(app.pin_mode(6), IoMode::FloatingInput);
}

#[test]
fn set_mode_refuses_unknown_argument() {
    let mut app = PicohaIo::new();
    let reply = app.process_set_io_mode(&cmd(0, 3, 9));
    assert_eq!(reply.action, IoAction::Nothing);
    assert_eq!(
        answer_of(&reply),
        (1, 0, 0, "Unknown arg value for set io mode command (9)".to_string())
    );
    assert_eq!(app.pin_mode(3), IoMode::FloatingInput);
}

#[test]
fn write_drives_an_output_pin() {
    let mut app = PicohaIo::new();
    app.process_set_io_mode(&cmd(0, 12, 2));
    assert!(app.can_process(&cmd(1, 12, 1)));
    let reply = app.process_write_io(&cmd(1, 12, 1));
    assert_eq!(reply.action, IoAction::Write { pin: 12, level: PinLevel::High });
    assert_eq!(answer_of(&reply), (0, 0, 0, String::new()));
    let reply = app.process_write_io(&cmd(1, 12, 0));
    assert_eq!(reply.action, IoAction::Write { pin: 12, level: PinLevel::Low });
    assert_eq!(app.pin_mode(12), IoMode::ReadableOutput);
}

#[test]
fn write_refuses_unknown_level() {
    let app = PicohaIo::new();
    assert!(app.can_process(&cmd(1, 2, 3)));
    let reply = app.process_write_io(&cmd(1, 2, 3));
    assert_eq!(reply.action, IoAction::Nothing);
    assert_eq!(
        answer_of(&reply),
        (1, 0, 0, "Unknown arg value for write command (3)".to_string())
    );
}

#[test]
fn faulting_commands_are_recognised() {
    let mut app = PicohaIo::new();
    // A valid write to a pin that is still an input.
    assert!(!app.can_process(&cmd(1, 2, 0)));
    // Pins beyond the bank.
    assert!(!app.can_process(&cmd(0, 27, 0)));
    assert!(!app.can_process(&cmd(1, 200, 5)));
    // Reads address a pin of the bank.
    assert!(!app.can_process(&cmd(2, 27, 0)));
    assert!(app.can_process(&cmd(2, 26, 0)));
    // Version queries and unknown codes address no pin.
    assert!(app.can_process(&cmd(10, 200, 0)));
    assert!(app.can_process(&cmd(77, 200, 0)));
    app.process_set_io_mode(&cmd(0, 2, 2));
    assert!(app.can_process(&cmd(1, 2, 0)));
    app.process_set_io_mode(&cmd(0, 2, 1));
    assert!(!app.can_process(&cmd(1, 2, 0)));
}

#[test]
fn read_asks_for_the_pin_level_and_answers_it() {
    let mut app = PicohaIo::new();
    let reply = app.process_read_io(&cmd(2, 4, 0));
    assert_eq!(reply.action, IoAction::Read { pin: 4 });
    assert!(reply.answer.is_none());
    let reply = app.process_command(&cmd(2, 9, 0));
    assert_eq!(reply.action, IoAction::Read { pin: 9 });
    assert!(reply.answer.is_none());
    assert_eq!(app.pin_mode(9), IoMode::FloatingInput);

    let high = read_answer(9, true);
    assert_eq!((high.sts, high.pin, high.arg, high.msg.as_str()), (0, 9, 1, ""));
    let low = read_answer(9, false);
    assert_eq!((low.sts, low.pin, low.arg, low.msg.as_str()), (0, 9, 0, ""));
}

#[test]
fn version_query_answers_version_zero_one() {
    let mut app = PicohaIo::new();
    let reply = app.process_command(&cmd(10, 0, 0));
    assert_eq!(reply.action, IoAction::Nothing);
    assert_eq!(answer_of(&reply), (0, 0, 1, String::new()));
}

#[test]
fn unknown_command_code_is_refused() {
    let mut app = PicohaIo::new();
    let reply = app.process_command(&cmd(42, 1, 1));
    assert_eq!(reply.action, IoAction::Nothing);
    assert_eq!(
        answer_of(&reply),
        (1, 0, 0, "Unknown arg value for command (42)".to_string())
    );
}

#[test]
fn dispatch_routes_set_mode_and_write() {
    let mut app = PicohaIo::new();
    let reply = app.process_command(&cmd(0, 7, 2));
    assert_eq!(reply.action, IoAction::SetMode { pin: 7, mode: IoMode::ReadableOutput });
    let reply = app.process_command(&cmd(1, 7, 0));
    assert_eq!(reply.action, IoAction::Write { pin: 7, level: PinLevel::Low });
    assert_eq!(answer_of(&reply), (0, 0, 0, String::new()));
}

#[test]
fn undecodable_line_is_answered_with_an_error() {
    let mut app = PicohaIo::new();
    let reply = app.process_parsed(None);
    assert_eq!(reply.action, IoAction::Nothing);
    assert_eq!(answer_of(&reply), (1, 0, 0, "error parsing command".to_string()));
    let reply = app.process_parsed(Some(cmd(10, 0, 0)));
    assert_eq!(answer_of(&reply), (0, 0, 1, String::new()));
}
