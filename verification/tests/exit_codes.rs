use sergw::exit::{exit_code_for_error, Cause, IoKind};

#[test]
fn exit_code_no_ports() {
    assert_eq!(exit_code_for_error(&vec![Cause::NoPorts]), 2);
}

#[test]
fn exit_code_multiple_ports() {
    assert_eq!(exit_code_for_error(&vec![Cause::MultiplePorts]), 3);
}

#[test]
fn exit_code_bind_like_io_error() {
    assert_eq!(exit_code_for_error(&vec![Cause::Io(IoKind::AddrInUse)]), 4);
}

#[test]
fn exit_code_serial_error() {
    assert_eq!(exit_code_for_error(&vec![Cause::Serial]), 5);
}

#[test]
fn exit_code_other() {
    assert_eq!(exit_code_for_error(&vec![Cause::Other]), 1);
}

#[test]
fn exit_code_of_an_empty_chain_is_generic() {
    assert_eq!(exit_code_for_error(&vec![]), 1);
}

#[test]
fn exit_code_for_each_network_kind() {
    for kind in [
        IoKind::AddrInUse,
        IoKind::AddrNotAvailable,
        IoKind::PermissionDenied,
        IoKind::ConnectionAborted,
        IoKind::ConnectionReset,
    ] {
        assert_eq!(exit_code_for_error(&vec![Cause::Io(kind)]), 4);
    }
    assert_eq!(exit_code_for_error(&vec![Cause::Io(IoKind::Other)]), 1);
}

#[test]
fn exit_code_is_settled_by_the_first_cause_that_counts() {
    assert_eq!(exit_code_for_error(&vec![Cause::Other, Cause::Serial, Cause::NoPorts]), 5);
    assert_eq!(exit_code_for_error(&vec![Cause::Other, Cause::Io(IoKind::Other), Cause::Serial]), 1);
    assert_eq!(exit_code_for_error(&vec![Cause::Other, Cause::Other, Cause::MultiplePorts]), 3);
}
