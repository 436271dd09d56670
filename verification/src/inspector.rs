//! The traffic inspector: captured samples and how they are shown.

use vstd::prelude::*;
use std::collections::VecDeque;
use crate::addr::PeerAddr;
use crate::buffer::{bytes_as_slice, bytes_view};
use crate::text::{dec_digit, dec_digit_of, hex_digit, hex_digit_of, lines_view, push_char};

verus! {

/// Which way a sample travelled: in from the serial device, or out of the TCP
/// client at the given address towards it.
#[derive(Clone, Copy, Debug, PartialEq, Eq, Structural)]
pub enum DirectionTag {
    Inbound,
    Outbound(PeerAddr),
}

/// A source of traffic that the inspector can show.
#[derive(Clone, Copy, Debug, PartialEq, Eq, Hash, Structural)]
pub enum DeviceId {
    Serial,
    Client(PeerAddr),
}

/// How bytes are written out.
#[derive(Clone, Copy, Debug, PartialEq, Eq, Structural)]
pub enum DumpFormat {
    Hex,
    Ascii,
    Dec,
}

/// One observed chunk of traffic.
pub struct Sample {
    pub dir: DirectionTag,
    pub data: bytes::Bytes,
}

/// What the inspector shows and holds.
pub struct InspectorState {
    pub format: DumpFormat,
    pub paused: bool,
    pub devices: Vec<DeviceId>,
    pub selected: usize,
    pub scroll: usize,
    pub capture: VecDeque<Sample>,
}

/// The most bytes of a sample that a list entry shows.
pub const ITEM_BYTES: usize = 256;

/// The most bytes of a sample that a paragraph line shows.
pub const LINE_BYTES: usize = 4096;

impl InspectorState {
    /// An inspector that shows hex, is not paused, knows the serial device
    /// only and has captured nothing.
    pub fn new() -> (s: Self)
        ensures
            s.format == DumpFormat::Hex,
            !s.paused,
            s.devices@ == seq![DeviceId::Serial],
            s.selected == 0,
            s.scroll == 0,
            s.capture@.len() == 0,
    {
        let mut devices: Vec<DeviceId> = Vec::new();
        devices.push(DeviceId::Serial);
        InspectorState {
            format: DumpFormat::Hex,
            paused: false,
            devices,
            selected: 0,
            scroll: 0,
            capture: VecDeque::with_capacity(2048),
        }
    }
}

/// How one byte is written out: two hex digits and a space; three decimal
/// digits and a space; or, as text, nothing for a line feed or carriage return,
/// the character itself where it is printable ASCII or a space, else a dot.
pub open spec fn dump_byte(b: u8, fmt: DumpFormat) -> Seq<char> {
    match fmt {
        DumpFormat::Hex => seq![hex_digit(b / 16), hex_digit(b % 16), ' '],
        DumpFormat::Ascii => if b == 10 || b == 13 {
            Seq::empty()
        } else if 0x20 <= b <= 0x7e {
            seq![b as char]
        } else {
            seq!['.']
        },
        DumpFormat::Dec => seq![dec_digit(b / 100), dec_digit((b / 10) % 10), dec_digit(b % 10), ' '],
    }
}

/// How a run of bytes is written out: each byte in turn.
pub open spec fn dump_text(bytes: Seq<u8>, fmt: DumpFormat) -> Seq<char>
    decreases bytes.len(),
{
    if bytes.len() == 0 {
        Seq::empty()
    } else {
        dump_text(bytes.drop_last(), fmt) + dump_byte(bytes.last(), fmt)
    }
}

/// The first `max` bytes of `bytes`, or all of them if there are fewer.
pub open spec fn clipped(bytes: Seq<u8>, max: int) -> Seq<u8> {
    if max < bytes.len() {
        bytes.take(max)
    } else {
        bytes
    }
}

/// Writes out the first `max` bytes of `buf` in the given format.
pub fn dump_bytes(buf: &[u8], fmt: DumpFormat, max: usize) -> (s: String)
    ensures
        s@ == dump_text(clipped(buf@, max as int), fmt),
{
    let n: usize = if max < buf.len() {
        max
    } else {
        buf.len()
    };
    let mut s = String::new();
    let mut i: usize = 0;
    while i < n
        invariant
            i <= n <= buf@.len(),
            n as int == clipped(buf@, max as int).len(),
            s@ == dump_text(buf@.take(i as int), fmt),
        decreases n - i,
    {
        let b: u8 = buf[i];
        proof {
            assert(buf@.take(i + 1).drop_last() =~= buf@.take(i as int));
            assert(buf@.take(i + 1).last() == b);
        }
        match fmt {
            DumpFormat::Hex => {
                push_char(&mut s, hex_digit_of(b / 16));
                push_char(&mut s, hex_digit_of(b % 16));
                push_char(&mut s, ' ');
            },
            DumpFormat::Ascii => {
                if b == 10 || b == 13 {
                } else if 0x20 <= b && b <= 0x7e {
                    push_char(&mut s, b as char);
                } else {
                    push_char(&mut s, '.');
                }
            },
            DumpFormat::Dec => {
                push_char(&mut s, dec_digit_of(b / 100));
                push_char(&mut s, dec_digit_of((b / 10) % 10));
                push_char(&mut s, dec_digit_of(b % 10));
                push_char(&mut s, ' ');
            },
        }
        assert(s@ =~= dump_text(buf@.take(i as int), fmt) + dump_byte(b, fmt));
        i += 1;
    }
    proof {
        assert(buf@.take(n as int) =~= clipped(buf@, max as int));
    }
    s
}

/// The device that a sample belongs to.
pub open spec fn device_of(dir: DirectionTag) -> DeviceId {
    match dir {
        DirectionTag::Inbound => DeviceId::Serial,
        DirectionTag::Outbound(a) => DeviceId::Client(a),
    }
}

/// The device that is selected, if the selection points at one.
pub open spec fn selected_device(devices: Seq<DeviceId>, selected: int) -> Option<DeviceId> {
    if 0 <= selected < devices.len() {
        Some(devices[selected])
    } else {
        None
    }
}

/// Whether a sample is shown under a selection: all are when nothing is
/// selected, else those of the selected device.
pub open spec fn is_shown(dir: DirectionTag, filter: Option<DeviceId>) -> bool {
    match filter {
        Some(d) => device_of(dir) == d,
        None => true,
    }
}

/// The lines for the shown samples of a capture, oldest first, each clipped
/// to `max` bytes.
pub open spec fn capture_lines(
    capture: Seq<Sample>,
    filter: Option<DeviceId>,
    fmt: DumpFormat,
    max: int,
) -> Seq<Seq<char>>
    decreases capture.len(),
{
    if capture.len() == 0 {
        Seq::empty()
    } else {
        let before = capture_lines(capture.drop_last(), filter, fmt, max);
        if is_shown(capture.last().dir, filter) {
            before.push(dump_text(clipped(bytes_view(capture.last().data), max), fmt))
        } else {
            before
        }
    }
}

/// Where a view of `rows` rows, scrolled back by `scroll`, starts in `len`
/// lines: `rows + scroll` lines before the end, or at the first line.
pub open spec fn window_start(len: int, rows: int, scroll: int) -> int {
    if len > rows + scroll {
        len - (rows + scroll)
    } else {
        0
    }
}

/// The lines of an inspector, before any windowing.
pub open spec fn inspector_lines(state: InspectorState, max: int) -> Seq<Seq<char>> {
    capture_lines(
        state.capture@,
        selected_device(state.devices@, state.selected as int),
        state.format,
        max,
    )
}

/// What `inspector_items` returns: at most `rows` lines from the window's start.
pub open spec fn items_shown(state: InspectorState, rows: int) -> Seq<Seq<char>> {
    let lines = inspector_lines(state, ITEM_BYTES as int);
    let start = window_start(lines.len() as int, rows, state.scroll as int);
    let end = if start + rows < lines.len() {
        start + rows
    } else {
        lines.len() as int
    };
    lines.subrange(start, end)
}

/// What `inspector_paragraph` returns: every line from the window's start, for
/// an area of the given height of which two rows are border.
pub open spec fn paragraph_shown(state: InspectorState, height: u16) -> Seq<Seq<char>> {
    let lines = inspector_lines(state, LINE_BYTES as int);
    let rows = if height >= 2 {
        height - 2
    } else {
        0
    };
    lines.skip(window_start(lines.len() as int, rows, state.scroll as int))
}

/// The device that a sample belongs to.
pub fn sample_device(dir: DirectionTag) -> (d: DeviceId)
    ensures
        d == device_of(dir),
{
    match dir {
        DirectionTag::Inbound => DeviceId::Serial,
        DirectionTag::Outbound(a) => DeviceId::Client(a),
    }
}

fn lines_of(state: &InspectorState, max: usize) -> (lines: Vec<String>)
    ensures
        lines_view(lines@) == inspector_lines(*state, max as int),
{
    let filter: Option<DeviceId> = if state.selected < state.devices.len() {
        Some(state.devices[state.selected])
    } else {
        None
    };
    let mut lines: Vec<String> = Vec::new();
    let mut i: usize = 0;
    assert(lines_view(lines@) =~= Seq::<Seq<char>>::empty());
    while i < state.capture.len()
        invariant
            i <= state.capture@.len(),
            filter == selected_device(state.devices@, state.selected as int),
            lines_view(lines@) == capture_lines(
                state.capture@.take(i as int),
                filter,
                state.format,
                max as int,
            ),
        decreases state.capture@.len() - i,
    {
        let sample = &state.capture[i];
        proof {
            assert(state.capture@.take(i + 1).drop_last() =~= state.capture@.take(i as int));
            assert(state.capture@.take(i + 1).last() == *sample);
        }
        let shown = match filter {
            Some(d) => sample_device(sample.dir) == d,
            None => true,
        };
        if shown {
            let line = dump_bytes(bytes_as_slice(&sample.data), state.format, max);
            let ghost before = lines@;
            lines.push(line);
            assert(lines_view(lines@) =~= lines_view(before).push(line@));
        }
        i += 1;
    }
    proof {
        assert(state.capture@.take(state.capture@.len() as int) =~= state.capture@);
    }
    lines
}

fn copy_lines(lines: &Vec<String>, start: usize, end: usize) -> (out: Vec<String>)
    requires
        start <= end <= lines@.len(),
    ensures
        lines_view(out@) == lines_view(lines@).subrange(start as int, end as int),
{
    let mut out: Vec<String> = Vec::new();
    let mut i: usize = start;
    assert(lines_view(out@) =~= lines_view(lines@).subrange(start as int, start as int));
    while i < end
        invariant
            start <= i <= end <= lines@.len(),
            lines_view(out@) == lines_view(lines@).subrange(start as int, i as int),
        decreases end - i,
    {
        let line = lines[i].clone();
        let ghost before = out@;
        out.push(line);
        assert(lines_view(out@) =~= lines_view(before).push(line@));
        assert(lines_view(out@) =~= lines_view(lines@).subrange(start as int, i + 1));
        i += 1;
    }
    out
}

/// The entries of the inspector's list: the shown samples as text, at most
/// `viewport_lines` of them, ending `scroll` lines before the newest.
pub fn inspector_items(state: &InspectorState, viewport_lines: usize) -> (items: Vec<String>)
    ensures
        lines_view(items@) == items_shown(*state, viewport_lines as int),
{
    let lines = lines_of(state, ITEM_BYTES);
    let back: usize = viewport_lines.saturating_add(state.scroll);
    let start: usize = lines.len().saturating_sub(back);
    let end: usize = if viewport_lines < lines.len() - start {
        start + viewport_lines
    } else {
        lines.len()
    };
    copy_lines(&lines, start, end)
}

/// The lines of the inspector's paragraph for an area `area_height` rows high:
/// the shown samples as text, from the window's start to the newest.
pub fn inspector_paragraph(state: &InspectorState, area_height: u16) -> (text: Vec<String>)
    ensures
        lines_view(text@) == paragraph_shown(*state, area_height),
{
    let lines = lines_of(state, LINE_BYTES);
    let rows: usize = if area_height >= 2 {
        (area_height - 2) as usize
    } else {
        0
    };
    let back: usize = rows.saturating_add(state.scroll);
    let start: usize = lines.len().saturating_sub(back);
    copy_lines(&lines, start, lines.len())
}

} // verus!
