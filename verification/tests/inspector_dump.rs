use bytes::Bytes;
use sergw::addr::PeerAddr;
use sergw::inspector::{
    dump_bytes, inspector_items, inspector_paragraph, sample_device, DeviceId, DirectionTag,
    DumpFormat, InspectorState, Sample,
};

fn inbound(data: &'static [u8]) -> Sample {
    Sample { dir: DirectionTag::Inbound, data: Bytes::from_static(data) }
}

fn outbound(peer: PeerAddr, data: &'static [u8]) -> Sample {
    Sample { dir: DirectionTag::Outbound(peer), data: Bytes::from_static(data) }
}

#[test]
fn dump_hex() {
    assert_eq!(dump_bytes(&[0x00, 0x0a, 0xab, 0xff], DumpFormat::Hex, 16), "00 0a ab ff ");
    assert_eq!(dump_bytes(b"hello", DumpFormat::Hex, 16), "68 65 6c 6c 6f ");
}

#[test]
fn dump_dec() {
    assert_eq!(dump_bytes(&[0, 7, 42, 100, 255], DumpFormat::Dec, 16), "000 007 042 100 255 ");
}

#[test]
fn dump_ascii() {
    assert_eq!(dump_bytes(b"hi there\r\n", DumpFormat::Ascii, 64), "hi there");
    assert_eq!(dump_bytes(&[0x00, b'a', 0x1f, b' ', b'~', 0x7f, 0x80, 0xff], DumpFormat::Ascii, 64), ".a. ~...");
    assert_eq!(dump_bytes(b"\t!", DumpFormat::Ascii, 64), ".!");
}

#[test]
fn dump_clips_to_max() {
    assert_eq!(dump_bytes(b"hello", DumpFormat::Hex, 2), "68 65 ");
    assert_eq!(dump_bytes(b"hello", DumpFormat::Ascii, 0), "");
    assert_eq!(dump_bytes(b"hello", DumpFormat::Ascii, 5), "hello");
    assert_eq!(dump_bytes(b"", DumpFormat::Dec, 5), "");
    // The clip counts bytes, also those that are not shown.
    assert_eq!(dump_bytes(b"\n\nab", DumpFormat::Ascii, 3), "a");
}

#[test]
fn dump_every_byte_in_hex_and_dec() {
    for b in 0..=255u8 {
        assert_eq!(dump_bytes(&[b], DumpFormat::Hex, 1), format!("{b:02x} "));
        assert_eq!(dump_bytes(&[b], DumpFormat::Dec, 1), format!("{b:03} "));
    }
}

#[test]
fn a_new_inspector() {
    let s = InspectorState::new();
    assert_eq!(s.format, DumpFormat::Hex);
    assert!(!s.paused);
    assert_eq!(s.devices, vec![DeviceId::Serial]);
    assert_eq!(s.selected, 0);
    assert_eq!(s.scroll, 0);
    assert!(s.capture.is_empty());
}

#[test]
fn a_sample_belongs_to_its_device() {
    let peer = PeerAddr::v4(1, 2, 3, 4, 5);
    assert_eq!(sample_device(DirectionTag::Inbound), DeviceId::Serial);
    assert_eq!(sample_device(DirectionTag::Outbound(peer)), DeviceId::Client(peer));
}

#[test]
fn items_show_the_selected_device_only() {
    let peer = PeerAddr::v4(1, 2, 3, 4, 5);
    let mut s = InspectorState::new();
    s.devices.push(DeviceId::Client(peer));
    s.format = DumpFormat::Ascii;
    s.capture.push_back(inbound(b"s1"));
    s.capture.push_back(outbound(peer, b"c1"));
    s.capture.push_back(inbound(b"s2"));
    s.capture.push_back(outbound(peer, b"c2"));

    assert_eq!(inspector_items(&s, 10), vec!["s1".to_string(), "s2".to_string()]);
    s.selected = 1;
    assert_eq!(inspector_items(&s, 10), vec!["c1".to_string(), "c2".to_string()]);
    // A selection that points at nothing shows everything.
    s.selected = 7;
    assert_eq!(
        inspector_items(&s, 10),
        vec!["s1".to_string(), "c1".to_string(), "s2".to_string(), "c2".to_string()]
    );
}

#[test]
fn items_window_ends_scroll_lines_before_the_newest() {
    let mut s = InspectorState::new();
    s.format = DumpFormat::Ascii;
    for chunk in [&b"1"[..], &b"2"[..], &b"3"[..], &b"4"[..], &b"5"[..]] {
        s.capture.push_back(Sample { dir: DirectionTag::Inbound, data: Bytes::copy_from_slice(chunk) });
    }
    assert_eq!(inspector_items(&s, 2), vec!["4".to_string(), "5".to_string()]);
    s.scroll = 1;
    assert_eq!(inspector_items(&s, 2), vec!["3".to_string(), "4".to_string()]);
    s.scroll = 100;
    assert_eq!(inspector_items(&s, 2), vec!["1".to_string(), "2".to_string()]);
    s.scroll = usize::MAX;
    assert_eq!(inspector_items(&s, 2), vec!["1".to_string(), "2".to_string()]);
    s.scroll = 0;
    assert_eq!(inspector_items(&s, 0), Vec::<String>::new());
    assert_eq!(inspector_items(&s, 9).len(), 5);
}

#[test]
fn items_clip_each_sample_to_256_bytes_and_lines_to_4096() {
    let mut s = InspectorState::new();
    s.format = DumpFormat::Ascii;
    s.capture.push_back(Sample { dir: DirectionTag::Inbound, data: Bytes::from(vec![b'x'; 5000]) });
    assert_eq!(inspector_items(&s, 1)[0].len(), 256);
    assert_eq!(inspector_paragraph(&s, 10)[0].len(), 4096);
}

#[test]
fn paragraph_shows_from_the_window_start_to_the_newest() {
    let mut s = InspectorState::new();
    s.format = DumpFormat::Hex;
    for chunk in [&b"1"[..], &b"2"[..], &b"3"[..], &b"4"[..]] {
        s.capture.push_back(Sample { dir: DirectionTag::Inbound, data: Bytes::copy_from_slice(chunk) });
    }
    // Four rows of which two are border leave two.
    assert_eq!(inspector_paragraph(&s, 4), vec!["33 ".to_string(), "34 ".to_string()]);
    s.scroll = 1;
    assert_eq!(
        inspector_paragraph(&s, 4),
        vec!["32 ".to_string(), "33 ".to_string(), "34 ".to_string()]
    );
    s.scroll = 0;
    assert_eq!(inspector_paragraph(&s, 1), Vec::<String>::new());
    assert_eq!(inspector_paragraph(&s, 2), Vec::<String>::new());
    assert_eq!(inspector_paragraph(&s, 100).len(), 4);
}
