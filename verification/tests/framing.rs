use picoha_io::framing::{frame_line, on_button_interrupt, panic_report, Edge, IoValue};

#[test]
fn a_line_ends_with_one_newline() {
    assert_eq!(frame_line(b"{\"sts\":0}"), b"{\"sts\":0}\n".to_vec());
    assert_eq!(frame_line(b""), b"\n".to_vec());
}

#[test]
fn panic_report_names_file_and_line() {
    assert_eq!(
        panic_report(b"src/main.rs", 42),
        b"{\"log\":\"PANIC! => src/main.rs:42\"}\r\n".to_vec()
    );
    assert_eq!(
        panic_report(b"a.rs", 0),
        b"{\"log\":\"PANIC! => a.rs:0\"}\r\n".to_vec()
    );
    assert_eq!(
        panic_report(b"x", 4294967295),
        b"{\"log\":\"PANIC! => x:4294967295\"}\r\n".to_vec()
    );
    assert_eq!(
        panic_report(b"x", 162392),
        b"{\"log\":\"PANIC! => x:162392\"}\r\n".to_vec()
    );
}

#[test]
fn button_report_carries_the_level_first() {
    assert_eq!(IoValue::from_button(true).val, [1, 0, 0, 0, 0, 0, 0, 0, 0, 0]);
    assert_eq!(IoValue::from_button(false).val, [0; 10]);
}

#[test]
fn falling_edge_is_acknowledged_first() {
    let e = on_button_interrupt(true, true, true);
    assert_eq!(e.clear, Some(Edge::Low));
    assert_eq!(e.report.val[0], 1);
    let e = on_button_interrupt(false, false, true);
    assert_eq!(e.clear, Some(Edge::High));
    assert_eq!(e.report.val[0], 0);
    let e = on_button_interrupt(false, false, false);
    assert_eq!(e.clear, None);
}
