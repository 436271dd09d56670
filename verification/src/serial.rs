//! Choosing the serial device to open.

use vstd::prelude::*;
use vstd::string::StringExecFns;
use crate::text::{debug_list, lines_view, opt_text_view, show_list};

verus! {

/// What is known of a USB serial adapter.
#[derive(Clone, Debug)]
pub struct UsbInfo {
    pub vid: u16,
    pub pid: u16,
    pub product: Option<String>,
    pub manufacturer: Option<String>,
}

/// How a serial port is attached.
#[derive(Clone, Debug)]
pub enum PortKind {
    Usb(UsbInfo),
    Pci,
    Bluetooth,
    Unknown,
}

/// A serial port that was found on the machine.
#[derive(Clone, Debug)]
pub struct PortInfo {
    pub name: String,
    pub kind: PortKind,
}

/// Why no serial device could be chosen automatically.
#[derive(Debug)]
pub enum SerialSelectError {
    /// No candidate port was found.
    NoPorts,
    /// More than one candidate port was found; `list` names them all.
    MultiplePorts { list: Vec<String> },
}

/// What a selection error says.
pub open spec fn select_error_text(e: SerialSelectError) -> Seq<char> {
    match e {
        SerialSelectError::NoPorts =>
            "No serial ports found. Re-run with --serial <PORT> or use --all in 'ports' to inspect."@,
        SerialSelectError::MultiplePorts { list } => "Multiple serial ports detected: "@ + debug_list(
            lines_view(list@),
        ) + ". Please specify --serial <PORT>."@,
    }
}

impl SerialSelectError {
    /// What this error says.
    pub fn message(&self) -> (s: String)
        ensures
            s@ == select_error_text(*self),
    {
        match self {
            SerialSelectError::NoPorts => String::from_str(
                "No serial ports found. Re-run with --serial <PORT> or use --all in 'ports' to inspect.",
            ),
            SerialSelectError::MultiplePorts { list } => {
                let mut s = String::from_str("Multiple serial ports detected: ");
                let shown = show_list(list);
                s.append(shown.as_str());
                s.append(". Please specify --serial <PORT>.");
                s
            },
        }
    }
}

/// Whether a port counts when ports are listed: all do if `include_all`, else
/// the USB ones.
pub open spec fn is_listed(port: PortInfo, include_all: bool) -> bool {
    include_all || port.kind is Usb
}

/// The ports of `found` that are listed, in the order found.
pub open spec fn listed(found: Seq<PortInfo>, include_all: bool) -> Seq<PortInfo>
    decreases found.len(),
{
    if found.len() == 0 {
        Seq::empty()
    } else if is_listed(found.last(), include_all) {
        listed(found.drop_last(), include_all).push(found.last())
    } else {
        listed(found.drop_last(), include_all)
    }
}

/// The names of the USB ports among `found`, in the order found.
pub open spec fn usb_names(found: Seq<PortInfo>) -> Seq<Seq<char>> {
    listed(found, false).map_values(|p: PortInfo| p.name@)
}

/// The port that is settled on, over the views of what is known: an explicit
/// path always wins; otherwise exactly one candidate is needed.
pub open spec fn chosen_port(explicit: Option<Seq<char>>, available: Seq<Seq<char>>) -> Option<
    Seq<char>,
> {
    match explicit {
        Some(p) => Some(p),
        None => if available.len() == 1 {
            Some(available[0])
        } else {
            None
        },
    }
}

impl UsbInfo {
    /// A copy of this record.
    pub fn duplicate(&self) -> (c: Self)
        ensures
            c == *self,
    {
        UsbInfo {
            vid: self.vid,
            pid: self.pid,
            product: match &self.product {
                Some(p) => Some(p.clone()),
                None => None,
            },
            manufacturer: match &self.manufacturer {
                Some(m) => Some(m.clone()),
                None => None,
            },
        }
    }
}

impl PortInfo {
    /// A copy of this record.
    pub fn duplicate(&self) -> (c: Self)
        ensures
            c == *self,
    {
        PortInfo {
            name: self.name.clone(),
            kind: match &self.kind {
                PortKind::Usb(info) => PortKind::Usb(info.duplicate()),
                PortKind::Pci => PortKind::Pci,
                PortKind::Bluetooth => PortKind::Bluetooth,
                PortKind::Unknown => PortKind::Unknown,
            },
        }
    }

    /// Whether the port is attached by USB.
    pub fn is_usb(&self) -> (b: bool)
        ensures
            b == (self.kind is Usb),
    {
        match self.kind {
            PortKind::Usb(_) => true,
            _ => false,
        }
    }
}

/// Keeps the ports that are listed: all of `found` if `include_all`, else the
/// USB ones, in the order found.
pub fn list_available_ports(include_all: bool, found: Vec<PortInfo>) -> (ports: Vec<PortInfo>)
    ensures
        ports@ == listed(found@, include_all),
{
    let mut ports: Vec<PortInfo> = Vec::new();
    let mut i: usize = 0;
    while i < found.len()
        invariant
            i <= found@.len(),
            ports@ == listed(found@.take(i as int), include_all),
        decreases found@.len() - i,
    {
        proof {
            assert(found@.take(i + 1).drop_last() =~= found@.take(i as int));
            assert(found@.take(i + 1).last() == found@[i as int]);
        }
        if include_all || found[i].is_usb() {
            ports.push(found[i].duplicate());
        }
        i += 1;
    }
    proof {
        assert(found@.take(found@.len() as int) =~= found@);
    }
    ports
}

/// Picks the serial port: the explicit one if given, else the only available
/// one. With no explicit port, zero candidates is `NoPorts` and two or more is
/// `MultiplePorts` carrying the candidates unchanged.
pub fn decide_port(explicit: Option<String>, available: Vec<String>) -> (r: Result<
    String,
    SerialSelectError,
>)
    ensures
        r is Ok <==> chosen_port(opt_text_view(explicit), lines_view(available@)) is Some,
        r is Ok ==> Some(r->Ok_0@) == chosen_port(opt_text_view(explicit), lines_view(available@)),
        r matches Err(SerialSelectError::NoPorts) <==> explicit is None && available@.len() == 0,
        r matches Err(SerialSelectError::MultiplePorts { list }) ==> list == available,
        r matches Err(SerialSelectError::MultiplePorts { .. }) <==> explicit is None
            && available@.len() >= 2,
{
    if let Some(p) = explicit {
        return Ok(p);
    }
    let n: usize = available.len();
    if n == 0 {
        Err(SerialSelectError::NoPorts)
    } else if n == 1 {
        let name = available[0].clone();
        Ok(name)
    } else {
        Err(SerialSelectError::MultiplePorts { list: available })
    }
}

/// Settles on the serial port to open: the explicit one if given, else the
/// only USB port among `found`. With no explicit port, no USB port is
/// `NoPorts` and two or more is `MultiplePorts` naming them in the order found.
pub fn select_serial_port(explicit: &Option<String>, found: Vec<PortInfo>) -> (r: Result<
    String,
    SerialSelectError,
>)
    ensures
        r is Ok <==> chosen_port(opt_text_view(*explicit), usb_names(found@)) is Some,
        r is Ok ==> Some(r->Ok_0@) == chosen_port(opt_text_view(*explicit), usb_names(found@)),
        r matches Err(SerialSelectError::NoPorts) <==> *explicit is None && usb_names(found@).len()
            == 0,
        r matches Err(SerialSelectError::MultiplePorts { list }) ==> lines_view(list@) == usb_names(
            found@,
        ),
        r matches Err(SerialSelectError::MultiplePorts { .. }) <==> *explicit is None && usb_names(
            found@,
        ).len() >= 2,
{
    if let Some(p) = explicit {
        return Ok(p.clone());
    }
    let ports = list_available_ports(false, found);
    let mut names: Vec<String> = Vec::new();
    let mut i: usize = 0;
    while i < ports.len()
        invariant
            i <= ports@.len(),
            lines_view(names@) == ports@.take(i as int).map_values(|p: PortInfo| p.name@),
        decreases ports@.len() - i,
    {
        let name = ports[i].name.clone();
        let ghost before = names@;
        names.push(name);
        assert(lines_view(names@) =~= ports@.take(i + 1).map_values(|p: PortInfo| p.name@)) by {
            assert(lines_view(names@) =~= lines_view(before).push(name@));
        }
        i += 1;
    }
    proof {
        assert(ports@.take(ports@.len() as int) =~= ports@);
    }
    decide_port(None, names)
}

} // verus!
