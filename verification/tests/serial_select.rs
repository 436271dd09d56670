use sergw::serial::{decide_port, list_available_ports, select_serial_port};
use sergw::serial::{PortInfo, PortKind, SerialSelectError, UsbInfo};

fn usb(name: &str) -> PortInfo {
    PortInfo {
        name: name.to_string(),
        kind: PortKind::Usb(UsbInfo { vid: 0x0403, pid: 0x6001, product: None, manufacturer: None }),
    }
}

fn pci(name: &str) -> PortInfo {
    PortInfo { name: name.to_string(), kind: PortKind::Pci }
}

#[test]
fn test_decide_port_explicit() {
    let r = decide_port(Some("/dev/ttyUSB9".into()), vec!["/dev/ttyUSB0".into()]).unwrap();
    assert_eq!(r, "/dev/ttyUSB9");
}

#[test]
fn test_decide_port_none_single() {
    let r = decide_port(None, vec!["/dev/ttyUSB0".into()]).unwrap();
    assert_eq!(r, "/dev/ttyUSB0");
}

#[test]
fn test_decide_port_none_zero() {
    let err = decide_port(None, vec![]).unwrap_err();
    assert!(err.message().contains("No serial ports"));
}

#[test]
fn test_decide_port_none_multiple() {
    let err = decide_port(None, vec!["/dev/ttyUSB0".into(), "/dev/ttyUSB1".into()]).unwrap_err();
    assert!(err.message().contains("Multiple serial ports"));
}

#[test]
fn decide_port_multiple_lists_the_candidates_in_order() {
    let err = decide_port(None, vec!["/dev/ttyUSB0".into(), "/dev/ttyUSB1".into()]).unwrap_err();
    match err {
        SerialSelectError::MultiplePorts { list } => {
            assert_eq!(list, vec!["/dev/ttyUSB0".to_string(), "/dev/ttyUSB1".to_string()]);
        }
        SerialSelectError::NoPorts => panic!("expected several ports"),
    }
}

#[test]
fn decide_port_explicit_wins_over_no_ports() {
    let r = decide_port(Some("/dev/ttyACM0".into()), vec![]).unwrap();
    assert_eq!(r, "/dev/ttyACM0");
}

#[test]
fn no_ports_message_is_exact() {
    assert_eq!(
        SerialSelectError::NoPorts.message(),
        "No serial ports found. Re-run with --serial <PORT> or use --all in 'ports' to inspect."
    );
}

#[test]
fn multiple_ports_message_quotes_each_name() {
    let err = SerialSelectError::MultiplePorts {
        list: vec!["/dev/ttyUSB0".to_string(), "/dev/tty\"odd\"".to_string()],
    };
    assert_eq!(
        err.message(),
        "Multiple serial ports detected: [\"/dev/ttyUSB0\", \"/dev/tty\\\"odd\\\"\"]. Please specify --serial <PORT>."
    );
}

#[test]
fn multiple_ports_message_of_one_and_of_none() {
    let one = SerialSelectError::MultiplePorts { list: vec!["a".to_string()] };
    assert_eq!(one.message(), "Multiple serial ports detected: [\"a\"]. Please specify --serial <PORT>.");
    let none = SerialSelectError::MultiplePorts { list: vec![] };
    assert_eq!(none.message(), "Multiple serial ports detected: []. Please specify --serial <PORT>.");
}

#[test]
fn listing_keeps_usb_ports_only_unless_all() {
    let found = vec![pci("/dev/ttyS0"), usb("/dev/ttyUSB0"), pci("/dev/ttyS1"), usb("/dev/ttyUSB1")];
    let names: Vec<String> =
        list_available_ports(false, found).into_iter().map(|p| p.name).collect();
    assert_eq!(names, vec!["/dev/ttyUSB0".to_string(), "/dev/ttyUSB1".to_string()]);

    let found = vec![pci("/dev/ttyS0"), usb("/dev/ttyUSB0")];
    let names: Vec<String> = list_available_ports(true, found).into_iter().map(|p| p.name).collect();
    assert_eq!(names, vec!["/dev/ttyS0".to_string(), "/dev/ttyUSB0".to_string()]);
}

#[test]
fn select_takes_the_only_usb_port() {
    let r = select_serial_port(&None, vec![pci("/dev/ttyS0"), usb("/dev/ttyUSB0")]).unwrap();
    assert_eq!(r, "/dev/ttyUSB0");
}

#[test]
fn select_explicit_ignores_what_was_found() {
    let r = select_serial_port(&Some("/dev/ttyUSB9".to_string()), vec![usb("/dev/ttyUSB0")]).unwrap();
    assert_eq!(r, "/dev/ttyUSB9");
}

#[test]
fn select_without_usb_ports_is_no_ports() {
    let err = select_serial_port(&None, vec![pci("/dev/ttyS0")]).unwrap_err();
    assert!(matches!(err, SerialSelectError::NoPorts));
}

#[test]
fn select_with_two_usb_ports_names_both() {
    let err = select_serial_port(&None, vec![usb("/dev/ttyUSB0"), pci("/dev/ttyS0"), usb("/dev/ttyUSB1")])
        .unwrap_err();
    match err {
        SerialSelectError::MultiplePorts { list } => {
            assert_eq!(list, vec!["/dev/ttyUSB0".to_string(), "/dev/ttyUSB1".to_string()]);
        }
        SerialSelectError::NoPorts => panic!("expected several ports"),
    }
}
