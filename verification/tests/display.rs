use bytes::Bytes;
use sergw::addr::PeerAddr;
use sergw::chat::{
    chat_header, chat_window_start, incoming_line, reconnected_line, write_error_line, Chat,
    ChatAction,
};
use sergw::inspector::{DeviceId, DirectionTag, DumpFormat, Sample};
use sergw::overview::{
    device_row, footer_text, inspector_header, throughput_text, Key, KeyPress, Overview, Tab,
};

fn press(key: Key) -> KeyPress {
    KeyPress { key, ctrl: false }
}

fn ctrl(key: Key) -> KeyPress {
    KeyPress { key, ctrl: true }
}

fn sample(dir: DirectionTag, data: &'static [u8]) -> Sample {
    Sample { dir, data: Bytes::from_static(data) }
}

#[test]
fn the_overview_keeps_the_last_hundred_notices() {
    let mut o = Overview::new();
    for i in 0..150 {
        o.push_event(format!("e{i}"));
        assert!(o.logs.len() <= 100);
    }
    assert_eq!(o.logs.len(), 100);
    assert_eq!(o.logs[0], "e50");
    assert_eq!(o.logs[99], "e149");
}

#[test]
fn notices_are_shown_from_the_window_start() {
    let mut o = Overview::new();
    for i in 0..5 {
        o.push_event(format!("e{i}"));
    }
    assert_eq!(o.visible_events(4), vec!["e3".to_string(), "e4".to_string()]);
    assert!(!o.on_key(press(Key::Up)));
    assert_eq!(o.log_scroll, 1);
    assert_eq!(o.visible_events(4), vec!["e2".to_string(), "e3".to_string(), "e4".to_string()]);
    o.on_key(press(Key::Down));
    o.on_key(press(Key::Down));
    assert_eq!(o.log_scroll, 0);
    o.on_key(press(Key::Up));
    o.on_key(press(Key::Home));
    assert_eq!(o.log_scroll, 0);
    assert_eq!(o.visible_events(0).len(), 0);
    assert_eq!(o.visible_events(50).len(), 5);
    o.on_key(press(Key::Char('c')));
    assert!(o.logs.is_empty());
}

#[test]
fn q_and_control_c_ask_to_stop_and_change_nothing() {
    let mut o = Overview::new();
    o.push_event("kept".to_string());
    assert!(o.on_key(press(Key::Char('q'))));
    assert!(o.on_key(ctrl(Key::Char('c'))));
    assert!(o.on_key(ctrl(Key::Char('q'))));
    assert_eq!(o.logs, vec!["kept".to_string()]);
    assert_eq!(o.tab, Tab::Overview);
    assert!(!o.on_key(press(Key::Enter)));
    assert!(!o.on_key(press(Key::Other)));
}

#[test]
fn tab_switches_pages_and_leaving_the_inspector_resets_it() {
    let peer = PeerAddr::v4(1, 1, 1, 1, 1);
    let mut o = Overview::new();
    o.on_key(press(Key::Tab));
    assert_eq!(o.tab, Tab::Inspector);
    o.push_sample(sample(DirectionTag::Outbound(peer), b"x"));
    o.on_key(press(Key::Down));
    o.on_key(press(Key::Char('t')));
    o.on_key(press(Key::Char('p')));
    o.insp.scroll = 3;
    assert_eq!(o.insp.selected, 1);
    assert!(o.insp.paused);

    o.on_key(press(Key::Tab));
    assert_eq!(o.tab, Tab::Overview);
    assert!(o.insp.capture.is_empty());
    assert_eq!(o.insp.devices, vec![DeviceId::Serial]);
    assert_eq!(o.insp.selected, 0);
    assert_eq!(o.insp.scroll, 0);
    assert!(!o.insp.paused);
    assert_eq!(o.insp.format, DumpFormat::Ascii);
}

#[test]
fn inspector_keys() {
    let peer = PeerAddr::v4(1, 1, 1, 1, 1);
    let mut o = Overview::new();
    o.on_key(press(Key::Tab));
    o.on_key(press(Key::Char('t')));
    assert_eq!(o.insp.format, DumpFormat::Ascii);
    o.on_key(press(Key::Char('t')));
    assert_eq!(o.insp.format, DumpFormat::Dec);
    o.on_key(press(Key::Char('t')));
    assert_eq!(o.insp.format, DumpFormat::Hex);

    o.on_key(press(Key::Up));
    assert_eq!(o.insp.selected, 0);
    o.on_key(press(Key::Down));
    assert_eq!(o.insp.selected, 0);
    o.push_sample(sample(DirectionTag::Outbound(peer), b"x"));
    o.on_key(press(Key::Down));
    assert_eq!(o.insp.selected, 1);
    o.on_key(press(Key::Down));
    assert_eq!(o.insp.selected, 1);
    o.on_key(press(Key::Up));
    assert_eq!(o.insp.selected, 0);

    o.insp.scroll = 5;
    o.on_key(press(Key::Home));
    assert_eq!(o.insp.scroll, 0);
    o.insp.scroll = 5;
    o.on_key(press(Key::Char('c')));
    assert!(o.insp.capture.is_empty());
    assert_eq!(o.insp.scroll, 0);
    assert_eq!(o.insp.devices.len(), 2);
}

#[test]
fn samples_make_devices_known_and_are_dropped_while_paused() {
    let a = PeerAddr::v4(1, 1, 1, 1, 1);
    let b = PeerAddr::v4(2, 2, 2, 2, 2);
    let mut o = Overview::new();
    o.insp.devices.clear();
    o.push_sample(sample(DirectionTag::Outbound(a), b"1"));
    o.push_sample(sample(DirectionTag::Outbound(b), b"2"));
    o.push_sample(sample(DirectionTag::Inbound, b"3"));
    o.push_sample(sample(DirectionTag::Outbound(a), b"4"));
    assert_eq!(o.insp.devices, vec![DeviceId::Serial, DeviceId::Client(a), DeviceId::Client(b)]);
    assert_eq!(o.insp.capture.len(), 4);

    o.insp.paused = true;
    o.push_sample(sample(DirectionTag::Outbound(PeerAddr::v4(3, 3, 3, 3, 3)), b"5"));
    assert_eq!(o.insp.devices.len(), 3);
    assert_eq!(o.insp.capture.len(), 4);
}

#[test]
fn the_capture_keeps_the_last_4096_samples() {
    let mut o = Overview::new();
    for i in 0..4100u32 {
        o.push_sample(Sample {
            dir: DirectionTag::Inbound,
            data: Bytes::copy_from_slice(&i.to_be_bytes()),
        });
    }
    assert_eq!(o.insp.capture.len(), 4096);
    assert_eq!(o.insp.capture[0].data, Bytes::copy_from_slice(&4u32.to_be_bytes()));
    assert_eq!(o.insp.capture[4095].data, Bytes::copy_from_slice(&4099u32.to_be_bytes()));
}

#[test]
fn display_wording() {
    assert_eq!(throughput_text(0, 12345), "Inbound: 0 B/s\nOutbound: 12345 B/s");
    assert_eq!(
        throughput_text(u64::MAX, 10),
        "Inbound: 18446744073709551615 B/s\nOutbound: 10 B/s"
    );
    assert_eq!(inspector_header(DumpFormat::Hex, false), "fmt: Hex | status: resumed");
    assert_eq!(inspector_header(DumpFormat::Ascii, true), "fmt: Ascii | status: paused");
    assert_eq!(inspector_header(DumpFormat::Dec, false), "fmt: Dec | status: resumed");
    assert_eq!(device_row("serial", true), "> serial");
    assert_eq!(device_row("127.0.0.1:5", false), "  127.0.0.1:5");
    assert_eq!(
        footer_text(Tab::Overview),
        "Tab: inspector | q: quit | ↑/↓/Home: scroll events | c: clear events"
    );
    assert_eq!(
        footer_text(Tab::Inspector),
        "Tab: overview | q: quit | t: toggle type | p: pause/resume | ↑/↓: select device | Home: top | c: clear"
    );
}

#[test]
fn chat_typing_and_sending() {
    let mut c = Chat::new();
    assert!(matches!(c.on_key(press(Key::Enter)), ChatAction::Idle));
    for ch in "hi!".chars() {
        assert!(matches!(c.on_key(press(Key::Char(ch))), ChatAction::Idle));
    }
    c.on_key(press(Key::Backspace));
    assert_eq!(c.input, "hi");
    match c.on_key(press(Key::Enter)) {
        ChatAction::Send { payload, echo } => {
            assert_eq!(payload, "hi\n");
            assert_eq!(echo, "> hi");
        }
        _ => panic!("expected a send"),
    }
    assert_eq!(c.input, "");
    c.on_key(press(Key::Backspace));
    assert_eq!(c.input, "");
    c.on_key(press(Key::Char('x')));
    c.on_key(press(Key::Esc));
    assert_eq!(c.input, "");
    c.on_key(ctrl(Key::Char('d')));
    assert_eq!(c.input, "d");
    assert!(matches!(c.on_key(ctrl(Key::Char('c'))), ChatAction::Quit));
    assert_eq!(c.input, "d");
    c.on_key(press(Key::Char('c')));
    c.on_key(press(Key::Up));
    assert_eq!(c.input, "dc");
}

#[test]
fn chat_keeps_the_last_two_hundred_lines() {
    let mut c = Chat::new();
    for i in 0..205 {
        c.push_line(format!("l{i}"));
    }
    assert_eq!(c.logs.len(), 200);
    assert_eq!(c.logs[0], "l5");
    assert_eq!(c.logs[199], "l204");
}

#[test]
fn chat_wording() {
    assert_eq!(incoming_line(b"hello"), "< hello");
    assert_eq!(incoming_line(&[b'a', 0xff, b'b']), "< a\u{fffd}b");
    assert_eq!(incoming_line("gr\u{fc}n".as_bytes()), "< gr\u{fc}n");
    assert_eq!(reconnected_line(), "! reconnected");
    assert_eq!(write_error_line(), "! write error: Broken pipe");
    assert_eq!(
        chat_header("listener | 127.0.0.1:5656", 7, 1024),
        "listener | 127.0.0.1:5656 | In: 7 B/s Out: 1024 B/s"
    );
    assert_eq!(chat_window_start(10, 5), 7);
    assert_eq!(chat_window_start(2, 5), 0);
    assert_eq!(chat_window_start(10, 1), 10);
}
