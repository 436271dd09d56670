//! The line-by-line chat display of the client and of the mock device.

use vstd::prelude::*;
use vstd::string::StringExecFns;
use crate::overview::{capped, Key, KeyPress};
use crate::text::{decimal_text, lossy_text, pop_char, push_char, push_decimal, utf8_lossy};

verus! {

/// The most lines a chat keeps.
pub const CHAT_LIMIT: usize = 200;

/// The notice that the connection was made anew.
pub open spec fn reconnected_label() -> Seq<char> {
    "! reconnected"@
}

/// The notice that a write failed.
pub open spec fn write_error_label() -> Seq<char> {
    "! write error: Broken pipe"@
}

/// What a key press asks of the chat's owner.
#[derive(Debug)]
pub enum ChatAction {
    /// Nothing.
    Idle,
    /// Leave the chat.
    Quit,
    /// Send `payload`, and show `echo` once it is sent.
    Send { payload: String, echo: String },
}

/// What a chat holds.
pub struct Chat {
    /// The lines, oldest first.
    pub logs: Vec<String>,
    /// What has been typed and not yet sent.
    pub input: String,
}

/// The line typed, as it is sent: with a line feed at its end.
pub open spec fn payload_of(input: Seq<char>) -> Seq<char> {
    input.push('\n')
}

/// The line typed, as it is shown once sent.
pub open spec fn echo_of(input: Seq<char>) -> Seq<char> {
    "> "@ + input
}

/// A chunk that came in, as it is shown.
pub open spec fn incoming_label(bytes: Seq<u8>) -> Seq<char> {
    "< "@ + utf8_lossy(bytes)
}

/// What has been typed, after a key press: Control with `c` and every key
/// that is not named here leave it alone; a character is added; backspace
/// takes the last one off; enter and escape empty it.
pub open spec fn input_after(input: Seq<char>, press: KeyPress) -> Seq<char> {
    match press.key {
        Key::Char(c) => if c == 'c' && press.ctrl {
            input
        } else {
            input.push(c)
        },
        Key::Backspace => if input.len() > 0 {
            input.drop_last()
        } else {
            input
        },
        Key::Enter => Seq::empty(),
        Key::Esc => Seq::empty(),
        _ => input,
    }
}

/// The header of a chat: its title and the throughput in bytes per second.
pub open spec fn chat_header_label(title: Seq<char>, inbound: u64, outbound: u64) -> Seq<char> {
    title + " | In: "@ + decimal_text(inbound as nat) + " B/s Out: "@ + decimal_text(outbound as nat)
        + " B/s"@
}

impl Chat {
    /// A chat without lines and with nothing typed.
    pub fn new() -> (c: Self)
        ensures
            c.logs@.len() == 0,
            c.input@.len() == 0,
    {
        Chat { logs: Vec::new(), input: String::new() }
    }

    /// Takes a line in; once there are more than `CHAT_LIMIT`, the oldest goes.
    pub fn push_line(&mut self, line: String)
        ensures
            final(self).logs@ == capped(old(self).logs@.push(line), CHAT_LIMIT as int),
            final(self).input == old(self).input,
    {
        self.logs.push(line);
        if self.logs.len() > CHAT_LIMIT {
            let ghost grown = self.logs@;
            self.logs.remove(0);
            assert(self.logs@ =~= grown.drop_first());
        }
    }

    /// Takes a key press in. Control with `c` asks to quit. Enter on a line
    /// that is not empty asks to send it; on an empty one it does nothing.
    pub fn on_key(&mut self, press: KeyPress) -> (action: ChatAction)
        ensures
            final(self).logs == old(self).logs,
            final(self).input@ == input_after(old(self).input@, press),
            action is Quit <==> press.key == Key::Char('c') && press.ctrl,
            action is Send <==> press.key == Key::Enter && old(self).input@.len() > 0,
            action matches ChatAction::Send { payload, echo } ==> payload@ == payload_of(
                old(self).input@,
            ) && echo@ == echo_of(old(self).input@),
    {
        match press.key {
            Key::Char(c) => {
                if c == 'c' && press.ctrl {
                    return ChatAction::Quit;
                }
                push_char(&mut self.input, c);
                ChatAction::Idle
            },
            Key::Backspace => {
                let _ = pop_char(&mut self.input);
                ChatAction::Idle
            },
            Key::Enter => {
                if self.input.as_str().is_empty() {
                    assert(self.input@ =~= Seq::<char>::empty());
                    return ChatAction::Idle;
                }
                let echo = String::from_str("> ").concat(self.input.as_str());
                let mut payload = String::new();
                payload.append(self.input.as_str());
                push_char(&mut payload, '\n');
                assert(payload@ =~= payload_of(self.input@));
                self.input = String::new();
                ChatAction::Send { payload, echo }
            },
            Key::Esc => {
                self.input = String::new();
                ChatAction::Idle
            },
            _ => ChatAction::Idle,
        }
    }
}

/// Writes a chunk that came in as a line of the chat.
pub fn incoming_line(bytes: &[u8]) -> (line: String)
    ensures
        line@ == incoming_label(bytes@),
{
    let text = lossy_text(bytes);
    String::from_str("< ").concat(text.as_str())
}

/// Writes the notice that the connection was made anew.
pub fn reconnected_line() -> (line: String)
    ensures
        line@ == reconnected_label(),
{
    String::from_str("! reconnected")
}

/// Writes the notice that a write failed.
pub fn write_error_line() -> (line: String)
    ensures
        line@ == write_error_label(),
{
    String::from_str("! write error: Broken pipe")
}

/// Writes the header of a chat.
pub fn chat_header(title: &str, inbound: u64, outbound: u64) -> (s: String)
    ensures
        s@ == chat_header_label(title@, inbound, outbound),
{
    let mut s = String::from_str(title);
    s.append(" | In: ");
    push_decimal(&mut s, inbound);
    s.append(" B/s Out: ");
    push_decimal(&mut s, outbound);
    s.append(" B/s");
    s
}

/// Where the lines shown start when `rows` of them fit, two rows of the area
/// being border: so that the newest line is the last one shown.
pub fn chat_window_start(lines: usize, area_height: u16) -> (start: usize)
    ensures
        start == crate::inspector::window_start(
            lines as int,
            if area_height >= 2 {
                area_height - 2
            } else {
                0
            },
            0,
        ),
{
    let rows: usize = if area_height >= 2 {
        (area_height - 2) as usize
    } else {
        0
    };
    lines.saturating_sub(rows)
}

} // verus!
