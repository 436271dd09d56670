//! Listing the serial ports of the machine.

use vstd::prelude::*;
use vstd::string::StringExecFns;
use crate::cli::PortsFormat;
use crate::exit::{EXIT_NO_PORTS, EXIT_OK};
use crate::serial::{list_available_ports, listed, PortInfo, PortKind};
use crate::text::{debug_opt, hex4, lines_view, opt_text_view, push_char, push_hex4, show_opt};

verus! {

/// One port as it appears in the JSON listing.
#[derive(Debug)]
pub struct PortOut {
    pub name: String,
    pub kind: String,
    pub vid: Option<u16>,
    pub pid: Option<u16>,
    pub product: Option<String>,
    pub manufacturer: Option<String>,
}

/// What listing the ports comes to.
#[derive(Debug)]
pub enum PortsOutput {
    /// Lines for standard output, one per port.
    Text(Vec<String>),
    /// Records to print as one pretty JSON array on standard output.
    Json(Vec<PortOut>),
    /// Nothing to list in text form: `<no ports>` goes to standard error and
    /// the program ends with the code for "no serial ports".
    Nothing,
}

/// How a kind of port is named in a listing.
pub open spec fn kind_name(kind: PortKind) -> Seq<char> {
    match kind {
        PortKind::Usb(_) => "usb"@,
        PortKind::Pci => "PciPort"@,
        PortKind::Bluetooth => "BluetoothPort"@,
        PortKind::Unknown => "Unknown"@,
    }
}

/// The line for a port in the text listing: its name, and in the verbose
/// listing after a tab either the USB identifiers in hex with product and
/// manufacturer, or the kind of port.
pub open spec fn port_line(port: PortInfo, verbose: bool) -> Seq<char> {
    if !verbose {
        port.name@
    } else {
        match port.kind {
            PortKind::Usb(info) => port.name@ + "\tUSB vid:pid "@ + hex4(info.vid) + seq![':'] + hex4(
                info.pid,
            ) + seq!['\t'] + debug_opt(opt_text_view(info.product)) + seq!['\t'] + debug_opt(
                opt_text_view(info.manufacturer),
            ),
            _ => port.name@ + seq!['\t'] + kind_name(port.kind),
        }
    }
}

/// Whether a record says of a port what the JSON listing says of it.
pub open spec fn is_record_of(out: PortOut, port: PortInfo) -> bool {
    &&& out.name == port.name
    &&& out.kind@ == kind_name(port.kind)
    &&& match port.kind {
        PortKind::Usb(info) => {
            &&& out.vid == Some(info.vid)
            &&& out.pid == Some(info.pid)
            &&& out.product == info.product
            &&& out.manufacturer == info.manufacturer
        },
        _ => out.vid is None && out.pid is None && out.product is None && out.manufacturer is None,
    }
}

/// What `render_ports` comes to for the ports to list.
pub open spec fn is_rendering_of(
    out: PortsOutput,
    ports: Seq<PortInfo>,
    verbose: bool,
    format: PortsFormat,
) -> bool {
    match format {
        PortsFormat::Text => if ports.len() == 0 {
            out is Nothing
        } else {
            &&& out matches PortsOutput::Text(lines)
            &&& lines_view(lines@) == ports.map_values(|p: PortInfo| port_line(p, verbose))
        },
        PortsFormat::Json => {
            &&& out matches PortsOutput::Json(records)
            &&& records@.len() == ports.len()
            &&& forall|i: int| 0 <= i < ports.len() ==> is_record_of(#[trigger] records@[i], ports[i])
        },
    }
}

impl PortsOutput {
    /// The code the program ends with after this listing.
    pub fn exit_code(&self) -> (code: i32)
        ensures
            code == if *self is Nothing {
                EXIT_NO_PORTS
            } else {
                EXIT_OK
            },
    {
        match self {
            PortsOutput::Nothing => EXIT_NO_PORTS,
            _ => EXIT_OK,
        }
    }
}

/// Names a kind of port as a listing does.
pub fn kind_label(kind: &PortKind) -> (s: String)
    ensures
        s@ == kind_name(*kind),
{
    match kind {
        PortKind::Usb(_) => String::from_str("usb"),
        PortKind::Pci => String::from_str("PciPort"),
        PortKind::Bluetooth => String::from_str("BluetoothPort"),
        PortKind::Unknown => String::from_str("Unknown"),
    }
}

/// Writes the line of one port in the text listing.
pub fn line_for(port: &PortInfo, verbose: bool) -> (line: String)
    ensures
        line@ == port_line(*port, verbose),
{
    let mut line = port.name.clone();
    if verbose {
        match &port.kind {
            PortKind::Usb(info) => {
                line.append("\tUSB vid:pid ");
                push_hex4(&mut line, info.vid);
                push_char(&mut line, ':');
                push_hex4(&mut line, info.pid);
                push_char(&mut line, '\t');
                let product = show_opt(&info.product);
                line.append(product.as_str());
                push_char(&mut line, '\t');
                let manufacturer = show_opt(&info.manufacturer);
                line.append(manufacturer.as_str());
            },
            other => {
                push_char(&mut line, '\t');
                let label = kind_label(other);
                line.append(label.as_str());
            },
        }
    }
    assert(line@ =~= port_line(*port, verbose));
    line
}

/// Writes the record of one port in the JSON listing.
pub fn record_for(port: &PortInfo) -> (out: PortOut)
    ensures
        is_record_of(out, *port),
{
    match &port.kind {
        PortKind::Usb(info) => {
            let copy = info.duplicate();
            PortOut {
                name: port.name.clone(),
                kind: kind_label(&port.kind),
                vid: Some(copy.vid),
                pid: Some(copy.pid),
                product: copy.product,
                manufacturer: copy.manufacturer,
            }
        },
        _ => PortOut {
            name: port.name.clone(),
            kind: kind_label(&port.kind),
            vid: None,
            pid: None,
            product: None,
            manufacturer: None,
        },
    }
}

/// Lists the ports among `found`: all of them if `all`, else the USB ones. As
/// text it is one line per port, or `Nothing` where there is none; as JSON it
/// is one record per port.
pub fn render_ports(all: bool, verbose: bool, format: PortsFormat, found: Vec<PortInfo>) -> (out:
    PortsOutput)
    ensures
        is_rendering_of(out, listed(found@, all), verbose, format),
{
    let ports = list_available_ports(all, found);
    match format {
        PortsFormat::Text => {
            if ports.len() == 0 {
                return PortsOutput::Nothing;
            }
            let mut lines: Vec<String> = Vec::new();
            let mut i: usize = 0;
            while i < ports.len()
                invariant
                    i <= ports@.len(),
                    lines_view(lines@) == ports@.take(i as int).map_values(
                        |p: PortInfo| port_line(p, verbose),
                    ),
                decreases ports@.len() - i,
            {
                let line = line_for(&ports[i], verbose);
                let ghost before = lines@;
                lines.push(line);
                assert(lines_view(lines@) =~= ports@.take(i + 1).map_values(
                    |p: PortInfo| port_line(p, verbose),
                )) by {
                    assert(lines_view(lines@) =~= lines_view(before).push(line@));
                }
                i += 1;
            }
            proof {
                assert(ports@.take(ports@.len() as int) =~= ports@);
            }
            PortsOutput::Text(lines)
        },
        PortsFormat::Json => {
            let mut records: Vec<PortOut> = Vec::new();
            let mut i: usize = 0;
            while i < ports.len()
                invariant
                    i <= ports@.len(),
                    records@.len() == i,
                    forall|n: int| 0 <= n < i ==> is_record_of(#[trigger] records@[n], ports@[n]),
                decreases ports@.len() - i,
            {
                records.push(record_for(&ports[i]));
                i += 1;
            }
            PortsOutput::Json(records)
        },
    }
}

} // verus!
