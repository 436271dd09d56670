//! The overview display: what it holds, and what keys and arrivals do to it.

use vstd::prelude::*;
use vstd::string::StringExecFns;
use crate::inspector::{
    device_of, sample_device, window_start, DeviceId, DumpFormat, InspectorState, Sample,
};
use crate::text::{decimal_text, lines_view, push_decimal};

verus! {

/// The most notices the overview keeps.
pub const EVENT_LIMIT: usize = 100;

/// The most samples the inspector keeps.
pub const CAPTURE_LIMIT: usize = 4096;

/// The two pages of the display.
#[derive(Clone, Copy, Debug, PartialEq, Eq, Structural)]
pub enum Tab {
    Overview,
    Inspector,
}

/// The keys the display tells apart.
#[derive(Clone, Copy, Debug, PartialEq, Eq, Structural)]
pub enum Key {
    Char(char),
    Tab,
    Up,
    Down,
    Home,
    Enter,
    Backspace,
    Esc,
    /// Any other key.
    Other,
}

/// A key that was pressed, and whether Control was held.
#[derive(Clone, Copy, Debug, PartialEq, Eq, Structural)]
pub struct KeyPress {
    pub key: Key,
    pub ctrl: bool,
}

/// What the display holds.
pub struct Overview {
    /// The notices, oldest first.
    pub logs: Vec<String>,
    /// How many lines the notices are scrolled back.
    pub log_scroll: usize,
    /// The page that is shown.
    pub tab: Tab,
    /// The inspector.
    pub insp: InspectorState,
}

/// The display as contracts see it.
pub struct OverviewModel {
    pub logs: Seq<String>,
    pub log_scroll: usize,
    pub tab: Tab,
    pub format: DumpFormat,
    pub paused: bool,
    pub devices: Seq<DeviceId>,
    pub selected: usize,
    pub scroll: usize,
    pub capture: Seq<Sample>,
}

impl View for Overview {
    type V = OverviewModel;

    open spec fn view(&self) -> OverviewModel {
        OverviewModel {
            logs: self.logs@,
            log_scroll: self.log_scroll,
            tab: self.tab,
            format: self.insp.format,
            paused: self.insp.paused,
            devices: self.insp.devices@,
            selected: self.insp.selected,
            scroll: self.insp.scroll,
            capture: self.insp.capture@,
        }
    }
}

/// A list that has grown past `limit` loses its oldest entry.
pub open spec fn capped<T>(items: Seq<T>, limit: int) -> Seq<T> {
    if items.len() > limit {
        items.drop_first()
    } else {
        items
    }
}

/// The devices once `device` is known: unchanged if it is known already;
/// else the serial device goes to the front and a client to the end.
pub open spec fn devices_with(devices: Seq<DeviceId>, device: DeviceId) -> Seq<DeviceId> {
    if devices.contains(device) {
        devices
    } else if device == DeviceId::Serial {
        seq![device] + devices
    } else {
        devices.push(device)
    }
}

/// The format after the one given, in the cycle hex, text, decimal.
pub open spec fn next_format(format: DumpFormat) -> DumpFormat {
    match format {
        DumpFormat::Hex => DumpFormat::Ascii,
        DumpFormat::Ascii => DumpFormat::Dec,
        DumpFormat::Dec => DumpFormat::Hex,
    }
}

/// Whether a key press asks to stop: `q`, or `c` with Control.
pub open spec fn asks_to_stop(press: KeyPress) -> bool {
    press.key == Key::Char('q') || (press.key == Key::Char('c') && press.ctrl)
}

/// The display after a key press.
pub open spec fn after_key(m: OverviewModel, press: KeyPress) -> OverviewModel {
    if asks_to_stop(press) {
        m
    } else if press.key == Key::Tab {
        if m.tab == Tab::Overview {
            OverviewModel { tab: Tab::Inspector, ..m }
        } else {
            OverviewModel {
                tab: Tab::Overview,
                capture: Seq::empty(),
                devices: seq![DeviceId::Serial],
                selected: 0,
                scroll: 0,
                paused: false,
                ..m
            }
        }
    } else if m.tab == Tab::Overview {
        match press.key {
            Key::Up => OverviewModel {
                log_scroll: if m.log_scroll < usize::MAX {
                    (m.log_scroll + 1) as usize
                } else {
                    m.log_scroll
                },
                ..m
            },
            Key::Down => OverviewModel {
                log_scroll: if m.log_scroll > 0 {
                    (m.log_scroll - 1) as usize
                } else {
                    m.log_scroll
                },
                ..m
            },
            Key::Home => OverviewModel { log_scroll: 0, ..m },
            Key::Char(c) => if c == 'c' {
                OverviewModel { logs: Seq::empty(), log_scroll: 0, ..m }
            } else {
                m
            },
            _ => m,
        }
    } else {
        match press.key {
            Key::Char(c) => if c == 't' {
                OverviewModel { format: next_format(m.format), ..m }
            } else if c == 'p' {
                OverviewModel { paused: !m.paused, ..m }
            } else if c == 'c' {
                OverviewModel { capture: Seq::empty(), scroll: 0, ..m }
            } else {
                m
            },
            Key::Up => OverviewModel {
                selected: if m.selected > 0 {
                    (m.selected - 1) as usize
                } else {
                    m.selected
                },
                ..m
            },
            Key::Down => OverviewModel {
                selected: if m.selected + 1 < m.devices.len() {
                    (m.selected + 1) as usize
                } else {
                    m.selected
                },
                ..m
            },
            Key::Home => OverviewModel { scroll: 0, ..m },
            _ => m,
        }
    }
}

/// The display after a sample arrives: nothing changes while the inspector is
/// paused; otherwise the sample's device becomes known and the sample is
/// captured, the oldest one making room once the limit is passed.
pub open spec fn after_sample(m: OverviewModel, sample: Sample) -> OverviewModel {
    if m.paused {
        m
    } else {
        OverviewModel {
            devices: devices_with(m.devices, device_of(sample.dir)),
            capture: capped(m.capture.push(sample), CAPTURE_LIMIT as int),
            ..m
        }
    }
}

/// The notices that are shown in an area `height` rows high, of which two are
/// border: from the window's start to the newest.
pub open spec fn events_shown(m: OverviewModel, height: u16) -> Seq<Seq<char>> {
    let rows = if height >= 2 {
        height - 2
    } else {
        0
    };
    lines_view(m.logs).skip(window_start(m.logs.len() as int, rows, m.log_scroll as int))
}

impl Overview {
    /// A display that shows the overview, holds no notices, and has a fresh
    /// inspector.
    pub fn new() -> (o: Self)
        ensures
            o@ == (OverviewModel {
                logs: Seq::empty(),
                log_scroll: 0,
                tab: Tab::Overview,
                format: DumpFormat::Hex,
                paused: false,
                devices: seq![DeviceId::Serial],
                selected: 0,
                scroll: 0,
                capture: Seq::empty(),
            }),
    {
        let o = Overview {
            logs: Vec::new(),
            log_scroll: 0,
            tab: Tab::Overview,
            insp: InspectorState::new(),
        };
        assert(o@.capture =~= Seq::<Sample>::empty());
        o
    }

    /// Takes a notice in; once there are more than `EVENT_LIMIT`, the oldest
    /// goes.
    pub fn push_event(&mut self, notice: String)
        ensures
            final(self)@ == (OverviewModel {
                logs: capped(old(self)@.logs.push(notice), EVENT_LIMIT as int),
                ..old(self)@
            }),
    {
        self.logs.push(notice);
        if self.logs.len() > EVENT_LIMIT {
            let ghost grown = self.logs@;
            self.logs.remove(0);
            assert(self.logs@ =~= grown.drop_first());
        }
    }

    /// Takes a sample in, unless the inspector is paused.
    pub fn push_sample(&mut self, sample: Sample)
        ensures
            final(self)@ == after_sample(old(self)@, sample),
    {
        if self.insp.paused {
            return ;
        }
        let device = sample_device(sample.dir);
        let mut known = false;
        let mut i: usize = 0;
        while i < self.insp.devices.len()
            invariant
                i <= self.insp.devices@.len(),
                *self == *old(self),
                known <==> self.insp.devices@.take(i as int).contains(device),
            decreases self.insp.devices@.len() - i,
        {
            if self.insp.devices[i] == device {
                known = true;
            }
            proof {
                let upto = self.insp.devices@.take(i + 1);
                assert(upto.drop_last() =~= self.insp.devices@.take(i as int));
                assert(upto.last() == self.insp.devices@[i as int]);
                if self.insp.devices@.take(i as int).contains(device) {
                    let n = choose|n: int|
                        0 <= n < i && self.insp.devices@.take(i as int)[n] == device;
                    assert(upto[n] == device);
                }
                if upto.contains(device) && !(self.insp.devices@[i as int] == device) {
                    let n = choose|n: int| 0 <= n < upto.len() && upto[n] == device;
                    assert(self.insp.devices@.take(i as int)[n] == device);
                }
            }
            i += 1;
        }
        proof {
            assert(self.insp.devices@.take(self.insp.devices@.len() as int) =~= self.insp.devices@);
        }
        if !known {
            match device {
                DeviceId::Serial => {
                    self.insp.devices.insert(0, device);
                    assert(self.insp.devices@ =~= seq![device] + old(self).insp.devices@);
                },
                DeviceId::Client(_) => {
                    self.insp.devices.push(device);
                },
            }
        }
        self.insp.capture.push_back(sample);
        if self.insp.capture.len() > CAPTURE_LIMIT {
            let ghost grown = self.insp.capture@;
            let _ = self.insp.capture.pop_front();
            assert(self.insp.capture@ =~= grown.drop_first());
        }
    }

    /// Takes a key press in and says whether it asks to stop the gateway.
    pub fn on_key(&mut self, press: KeyPress) -> (stop: bool)
        ensures
            stop == asks_to_stop(press),
            final(self)@ == after_key(old(self)@, press),
    {
        let is_plain_c = match press.key {
            Key::Char(c) => c == 'c',
            _ => false,
        };
        let is_q = match press.key {
            Key::Char(c) => c == 'q',
            _ => false,
        };
        if is_q || (is_plain_c && press.ctrl) {
            return true;
        }
        if let Key::Tab = press.key {
            match self.tab {
                Tab::Overview => {
                    self.tab = Tab::Inspector;
                },
                Tab::Inspector => {
                    self.tab = Tab::Overview;
                    self.insp.capture.clear();
                    let mut devices: Vec<DeviceId> = Vec::new();
                    devices.push(DeviceId::Serial);
                    self.insp.devices = devices;
                    self.insp.selected = 0;
                    self.insp.scroll = 0;
                    self.insp.paused = false;
                },
            }
            return false;
        }
        match self.tab {
            Tab::Overview => match press.key {
                Key::Up => {
                    self.log_scroll = self.log_scroll.saturating_add(1);
                },
                Key::Down => {
                    self.log_scroll = self.log_scroll.saturating_sub(1);
                },
                Key::Home => {
                    self.log_scroll = 0;
                },
                Key::Char(c) => {
                    if c == 'c' {
                        self.logs.clear();
                        self.log_scroll = 0;
                    }
                },
                _ => {},
            },
            Tab::Inspector => match press.key {
                Key::Char(c) => {
                    if c == 't' {
                        self.insp.format = match self.insp.format {
                            DumpFormat::Hex => DumpFormat::Ascii,
                            DumpFormat::Ascii => DumpFormat::Dec,
                            DumpFormat::Dec => DumpFormat::Hex,
                        };
                    } else if c == 'p' {
                        self.insp.paused = !self.insp.paused;
                    } else if c == 'c' {
                        self.insp.capture.clear();
                        self.insp.scroll = 0;
                    }
                },
                Key::Up => {
                    if self.insp.selected > 0 {
                        self.insp.selected -= 1;
                    }
                },
                Key::Down => {
                    let known: usize = self.insp.devices.len();
                    if self.insp.selected < known && self.insp.selected + 1 < known {
                        self.insp.selected += 1;
                    }
                },
                Key::Home => {
                    self.insp.scroll = 0;
                },
                _ => {},
            },
        }
        false
    }

    /// The notices to show in an area `area_height` rows high.
    pub fn visible_events(&self, area_height: u16) -> (lines: Vec<String>)
        ensures
            lines_view(lines@) == events_shown(self@, area_height),
    {
        let rows: usize = if area_height >= 2 {
            (area_height - 2) as usize
        } else {
            0
        };
        let back: usize = rows.saturating_add(self.log_scroll);
        let start: usize = self.logs.len().saturating_sub(back);
        let mut lines: Vec<String> = Vec::new();
        let mut i: usize = start;
        assert(lines_view(lines@) =~= lines_view(self.logs@).subrange(start as int, start as int));
        while i < self.logs.len()
            invariant
                start <= i <= self.logs@.len(),
                lines_view(lines@) == lines_view(self.logs@).subrange(start as int, i as int),
            decreases self.logs@.len() - i,
        {
            let line = self.logs[i].clone();
            let ghost before = lines@;
            lines.push(line);
            assert(lines_view(lines@) =~= lines_view(before).push(line@));
            assert(lines_view(lines@) =~= lines_view(self.logs@).subrange(start as int, i + 1));
            i += 1;
        }
        assert(lines_view(self.logs@).subrange(start as int, self.logs@.len() as int) =~= lines_view(
            self.logs@,
        ).skip(start as int));
        lines
    }
}

/// The line of throughput figures, in bytes per second.
pub open spec fn throughput_label(inbound: u64, outbound: u64) -> Seq<char> {
    "Inbound: "@ + decimal_text(inbound as nat) + " B/s\nOutbound: "@ + decimal_text(outbound as nat)
        + " B/s"@
}

/// How a format is named.
pub open spec fn format_name(format: DumpFormat) -> Seq<char> {
    match format {
        DumpFormat::Hex => "Hex"@,
        DumpFormat::Ascii => "Ascii"@,
        DumpFormat::Dec => "Dec"@,
    }
}

/// The line above the inspector's messages.
pub open spec fn header_label(format: DumpFormat, paused: bool) -> Seq<char> {
    "fmt: "@ + format_name(format) + " | status: "@ + if paused {
        "paused"@
    } else {
        "resumed"@
    }
}

/// A device in the inspector's list: marked if it is the selected one.
pub open spec fn device_label(label: Seq<char>, selected: bool) -> Seq<char> {
    if selected {
        "> "@ + label
    } else {
        "  "@ + label
    }
}

/// The keys that a page offers.
pub open spec fn footer_label(tab: Tab) -> Seq<char> {
    match tab {
        Tab::Overview => "Tab: inspector | q: quit | \u{2191}/\u{2193}/Home: scroll events | c: clear events"@,
        Tab::Inspector =>
            "Tab: overview | q: quit | t: toggle type | p: pause/resume | \u{2191}/\u{2193}: select device | Home: top | c: clear"@,
    }
}

/// Writes the throughput figures, in bytes per second: `inbound` is what comes
/// from the serial device, `outbound` what goes to it.
pub fn throughput_text(inbound: u64, outbound: u64) -> (s: String)
    ensures
        s@ == throughput_label(inbound, outbound),
{
    let mut s = String::from_str("Inbound: ");
    push_decimal(&mut s, inbound);
    s.append(" B/s\nOutbound: ");
    push_decimal(&mut s, outbound);
    s.append(" B/s");
    s
}

/// Writes the line above the inspector's messages.
pub fn inspector_header(format: DumpFormat, paused: bool) -> (s: String)
    ensures
        s@ == header_label(format, paused),
{
    let mut s = String::from_str("fmt: ");
    match format {
        DumpFormat::Hex => s.append("Hex"),
        DumpFormat::Ascii => s.append("Ascii"),
        DumpFormat::Dec => s.append("Dec"),
    }
    s.append(" | status: ");
    if paused {
        s.append("paused");
    } else {
        s.append("resumed");
    }
    s
}

/// Writes a device for the inspector's list.
pub fn device_row(label: &str, selected: bool) -> (s: String)
    ensures
        s@ == device_label(label@, selected),
{
    if selected {
        String::from_str("> ").concat(label)
    } else {
        String::from_str("  ").concat(label)
    }
}

/// Writes the keys that a page offers.
pub fn footer_text(tab: Tab) -> (s: String)
    ensures
        s@ == footer_label(tab),
{
    match tab {
        Tab::Overview => String::from_str(
            "Tab: inspector | q: quit | \u{2191}/\u{2193}/Home: scroll events | c: clear events",
        ),
        Tab::Inspector => String::from_str(
            "Tab: overview | q: quit | t: toggle type | p: pause/resume | \u{2191}/\u{2193}: select device | Home: top | c: clear",
        ),
    }
}

} // verus!
