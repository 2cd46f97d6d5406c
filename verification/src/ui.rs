//! What the screen shows, and what the keys do to it.

use crate::log_manager::snapshot_of;
use crate::log_manager::LogManager;
use vstd::prelude::*;
use vstd::string::StrSliceExecFns;
use vstd::string::StringExecFns;

verus! {

/// How far one key press scrolls.
pub const SCROLL_STEP: u16 = 10;

/// The line feeds in a text.
pub open spec fn line_feeds(text: Seq<char>) -> nat
    decreases text.len(),
{
    if text.len() == 0 {
        0
    } else {
        line_feeds(text.drop_last()) + if text.last() == '\n' {
            1nat
        } else {
            0nat
        }
    }
}

/// The line at the top of a block of `block_lines` lines that shows the end
/// of `content`, scrolled back by `scrolled_back` lines: as many lines as do
/// not fit are passed over, less those scrolled back, and none where all fit.
/// The count is taken modulo 65536, the range of the screen's offsets.
pub open spec fn scroll_offset_spec(content: Seq<char>, block_lines: u16, scrolled_back: u16) -> int {
    let lines = line_feeds(content) + 1;
    if lines <= block_lines + scrolled_back {
        0
    } else {
        (lines - block_lines - scrolled_back) % 0x10000
    }
}

/// The line at the top of a block that shows the end of `content`.
pub fn scroll_offset(content: &str, block_lines: u16, scrolled_back: u16) -> (r: u16)
    ensures
        r == scroll_offset_spec(content@, block_lines, scrolled_back),
{
    let length: usize = content.unicode_len();
    let mut feeds: usize = 0;
    for c in it: content.chars()
        invariant
            it.seq() == content@,
            length == content@.len(),
            feeds == line_feeds(it.seq().take(it.index() as int)),
            feeds <= it.index(),
    {
        assert(it.seq().take(it.index() + 1).drop_last() =~= it.seq().take(it.index() as int));
        if c == '\n' {
            feeds += 1;
        }
    }
    assert(content@.take(content@.len() as int) =~= content@);
    let lines: u128 = feeds as u128 + 1;
    let kept: u128 = block_lines as u128 + scrolled_back as u128;
    if lines <= kept {
        0
    } else {
        ((lines - kept) % 0x10000) as u16
    }
}

/// Texts put together with a line feed between each two.
pub open spec fn joined_lines(list: Seq<Seq<char>>) -> Seq<char>
    decreases list.len(),
{
    if list.len() == 0 {
        Seq::empty()
    } else if list.len() == 1 {
        list[0]
    } else {
        joined_lines(list.drop_last()) + "\n"@ + list.last()
    }
}

/// Texts put together with a line feed between each two.
pub fn join_lines(list: &Vec<String>) -> (r: String)
    ensures
        r@ == joined_lines(list.deep_view()),
{
    let mut out = String::new();
    let mut at: usize = 0;
    while at < list.len()
        invariant
            at <= list.len(),
            out@ == joined_lines(list.deep_view().take(at as int)),
        decreases list.len() - at,
    {
        assert(list.deep_view().take(at + 1).drop_last() =~= list.deep_view().take(at as int));
        if at > 0 {
            out.append("\n");
        }
        out.append(list[at].as_str());
        at += 1;
    }
    assert(list.deep_view().take(list.len() as int) =~= list.deep_view());
    out
}

/// `String::push` puts one character at the end of the text, as the standard
/// library documents it.
pub assume_specification[ String::push ](text: &mut String, ch: char)
    ensures
        final(text)@ == old(text)@.push(ch),
;

/// `String::pop` takes the last character off the text and returns it, or
/// returns `None` for an empty text, as the standard library documents it.
pub assume_specification[ String::pop ](text: &mut String) -> (r: Option<char>)
    ensures
        old(text)@.len() == 0 ==> r is None && final(text)@ == old(text)@,
        old(text)@.len() > 0 ==> r == Some(old(text)@.last()) && final(text)@ == old(text)@.drop_last(),
;

/// A key, as far as the screen tells keys apart.
#[derive(Debug, Clone, Copy, PartialEq, Eq)]
pub enum Key {
    Esc,
    Enter,
    Backspace,
    Left,
    Right,
    Up,
    Down,
    Char(char),
    Other,
}

/// What was held down with a key.
#[derive(Debug, Clone, Copy, PartialEq, Eq)]
pub enum Held {
    Nothing,
    Shift,
    Control,
    Other,
}

/// What a key press asks of the program, beyond what it did to the screen.
#[derive(Debug, PartialEq, Eq)]
pub enum UiAction {
    /// Nothing.
    Continue,
    /// To end.
    Quit,
    /// To send this message.
    Send(String),
}

pub enum UiActionView {
    Continue,
    Quit,
    Send(Seq<char>),
}

impl View for UiAction {
    type V = UiActionView;

    open spec fn view(&self) -> UiActionView {
        match self {
            UiAction::Continue => UiActionView::Continue,
            UiAction::Quit => UiActionView::Quit,
            UiAction::Send(message) => UiActionView::Send(message@),
        }
    }
}

/// What the screen shows.
pub struct UIState {
    pub players: Vec<String>,
    pub logs: Vec<String>,
    pub chat: Vec<String>,
    pub message_box: String,
    pub stdout: String,
    pub horizontal_scroll: u16,
    pub vertical_scroll: u16,
}

pub struct UiView {
    pub players: Seq<Seq<char>>,
    pub logs: Seq<Seq<char>>,
    pub chat: Seq<Seq<char>>,
    pub message_box: Seq<char>,
    pub stdout: Seq<char>,
    pub horizontal_scroll: u16,
    pub vertical_scroll: u16,
}

impl View for UIState {
    type V = UiView;

    open spec fn view(&self) -> UiView {
        UiView {
            players: self.players.deep_view(),
            logs: self.logs.deep_view(),
            chat: self.chat.deep_view(),
            message_box: self.message_box@,
            stdout: self.stdout@,
            horizontal_scroll: self.horizontal_scroll,
            vertical_scroll: self.vertical_scroll,
        }
    }
}

/// A letter of `a` to `z` as its capital; any other character as it is.
pub open spec fn capital(c: char) -> char {
    if 'a' <= c <= 'z' {
        ((c as u8) - 32) as char
    } else {
        c
    }
}

/// A text without the characters that end it, back to its last blank.
pub open spec fn to_last_blank(text: Seq<char>) -> Seq<char>
    decreases text.len(),
{
    if text.len() > 0 && text.last() != ' ' {
        to_last_blank(text.drop_last())
    } else {
        text
    }
}

/// A text without its last character.
pub open spec fn without_last(text: Seq<char>) -> Seq<char> {
    if text.len() > 0 {
        text.drop_last()
    } else {
        text
    }
}

/// A text without its last word: the last character goes, and then all that
/// stands after the last blank.
pub open spec fn without_last_word(text: Seq<char>) -> Seq<char> {
    to_last_blank(without_last(text))
}

/// An offset moved back by one step, not below zero.
pub open spec fn scrolled_down(offset: u16) -> u16 {
    if offset < SCROLL_STEP {
        0
    } else {
        (offset - SCROLL_STEP) as u16
    }
}

/// An offset moved on by one step, not beyond the largest.
pub open spec fn scrolled_up(offset: u16) -> u16 {
    if offset > u16::MAX - SCROLL_STEP {
        u16::MAX
    } else {
        (offset + SCROLL_STEP) as u16
    }
}

/// The screen after a key press, and what the press asks of the program.
///
/// Escape alone ends the program. Enter, with whatever is held, sends the
/// message and empties the message box. Backspace takes a character off the
/// message; with control, as control and `h`, it takes a word off. A
/// character goes into the message, as its capital when shift is held. The
/// arrows scroll while shift is held. Any other press leaves an underscore in
/// the message.
pub open spec fn key_step(state: UiView, key: Key, held: Held) -> (UiView, UiActionView) {
    match (key, held) {
        (Key::Esc, Held::Nothing) => (state, UiActionView::Quit),
        (Key::Backspace, Held::Control) => (
            UiView { message_box: without_last_word(state.message_box), ..state },
            UiActionView::Continue,
        ),
        (Key::Char('h'), Held::Control) => (
            UiView { message_box: without_last_word(state.message_box), ..state },
            UiActionView::Continue,
        ),
        (Key::Backspace, Held::Nothing) => (
            UiView { message_box: without_last(state.message_box), ..state },
            UiActionView::Continue,
        ),
        (Key::Char(c), Held::Nothing) => (
            UiView { message_box: state.message_box.push(c), ..state },
            UiActionView::Continue,
        ),
        (Key::Char(c), Held::Shift) => (
            UiView { message_box: state.message_box.push(capital(c)), ..state },
            UiActionView::Continue,
        ),
        (Key::Left, Held::Shift) => (
            UiView { horizontal_scroll: scrolled_down(state.horizontal_scroll), ..state },
            UiActionView::Continue,
        ),
        (Key::Right, Held::Shift) => (
            UiView { horizontal_scroll: scrolled_up(state.horizontal_scroll), ..state },
            UiActionView::Continue,
        ),
        (Key::Down, Held::Shift) => (
            UiView { vertical_scroll: scrolled_down(state.vertical_scroll), ..state },
            UiActionView::Continue,
        ),
        (Key::Up, Held::Shift) => (
            UiView { vertical_scroll: scrolled_up(state.vertical_scroll), ..state },
            UiActionView::Continue,
        ),
        (Key::Enter, _) => (
            UiView { message_box: Seq::empty(), ..state },
            UiActionView::Send(state.message_box),
        ),
        _ => (UiView { message_box: state.message_box.push('_'), ..state }, UiActionView::Continue),
    }
}

fn to_capital(c: char) -> (r: char)
    ensures
        r == capital(c),
{
    if c >= 'a' && c <= 'z' {
        ((c as u8) - 32) as char
    } else {
        c
    }
}

fn scroll_down(offset: u16) -> (r: u16)
    ensures
        r == scrolled_down(offset),
{
    if offset < SCROLL_STEP {
        0
    } else {
        offset - SCROLL_STEP
    }
}

fn scroll_up(offset: u16) -> (r: u16)
    ensures
        r == scrolled_up(offset),
{
    if offset > u16::MAX - SCROLL_STEP {
        u16::MAX
    } else {
        offset + SCROLL_STEP
    }
}

fn drop_word(text: &mut String)
    ensures
        final(text)@ == without_last_word(old(text)@),
{
    text.pop();
    let mut left: usize = text.as_str().unicode_len();
    while left > 0 && text.as_str().get_char(left - 1) != ' '
        invariant
            left == text@.len(),
            to_last_blank(text@) == without_last_word(old(text)@),
        decreases left,
    {
        text.pop();
        left -= 1;
    }
}

impl UIState {
    /// An empty screen.
    pub fn new() -> (r: UIState)
        ensures
            r@ == (UiView {
                players: Seq::empty(),
                logs: Seq::empty(),
                chat: Seq::empty(),
                message_box: Seq::empty(),
                stdout: Seq::empty(),
                horizontal_scroll: 0,
                vertical_scroll: 0,
            }),
    {
        let r = UIState {
            players: Vec::new(),
            logs: Vec::new(),
            chat: Vec::new(),
            message_box: String::new(),
            stdout: String::new(),
            horizontal_scroll: 0,
            vertical_scroll: 0,
        };
        assert(r.players.deep_view() =~= Seq::<Seq<char>>::empty());
        assert(r.logs.deep_view() =~= Seq::<Seq<char>>::empty());
        assert(r.chat.deep_view() =~= Seq::<Seq<char>>::empty());
        r
    }

    /// Shows what `manager` has gathered: its log, chat and roster, and the
    /// answer to the last command. The message and the scrolling stay.
    pub fn sync<M: LogManager + ?Sized>(&mut self, manager: &M)
        ensures
            final(self)@ == (UiView {
                players: snapshot_of(manager.model()).players,
                logs: snapshot_of(manager.model()).logs,
                chat: snapshot_of(manager.model()).chat,
                stdout: snapshot_of(manager.model()).command_output,
                ..old(self)@
            }),
    {
        self.logs = manager.get_logs();
        self.chat = manager.get_chat();
        self.players = manager.get_players();
        self.stdout = manager.get_command_output();
    }

    /// Takes a key press.
    pub fn handle_key(&mut self, key: Key, held: Held) -> (action: UiAction)
        ensures
            (final(self)@, action@) == key_step(old(self)@, key, held),
    {
        match (key, held) {
            (Key::Esc, Held::Nothing) => UiAction::Quit,
            (Key::Backspace, Held::Control) => {
                drop_word(&mut self.message_box);
                UiAction::Continue
            },
            (Key::Char('h'), Held::Control) => {
                drop_word(&mut self.message_box);
                UiAction::Continue
            },
            (Key::Backspace, Held::Nothing) => {
                self.message_box.pop();
                UiAction::Continue
            },
            (Key::Char(c), Held::Nothing) => {
                self.message_box.push(c);
                UiAction::Continue
            },
            (Key::Char(c), Held::Shift) => {
                self.message_box.push(to_capital(c));
                UiAction::Continue
            },
            (Key::Left, Held::Shift) => {
                self.horizontal_scroll = scroll_down(self.horizontal_scroll);
                UiAction::Continue
            },
            (Key::Right, Held::Shift) => {
                self.horizontal_scroll = scroll_up(self.horizontal_scroll);
                UiAction::Continue
            },
            (Key::Down, Held::Shift) => {
                self.vertical_scroll = scroll_down(self.vertical_scroll);
                UiAction::Continue
            },
            (Key::Up, Held::Shift) => {
                self.vertical_scroll = scroll_up(self.vertical_scroll);
                UiAction::Continue
            },
            (Key::Enter, _) => {
                let mut message = String::new();
                std::mem::swap(&mut self.message_box, &mut message);
                UiAction::Send(message)
            },
            _ => {
                self.message_box.push('_');
                UiAction::Continue
            },
        }
    }
}

} // verus!
