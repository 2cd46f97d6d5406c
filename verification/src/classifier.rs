//! Sorting console lines into records.
//!
//! A line is *structured* when it holds `[time] [sender]: content`. The
//! content of a structured line may in turn be chat (`<name> message`), a
//! roster event (`name joined the game`), housekeeping noise of the command
//! console, or none of these. Every line gets a record: what fits no shape is
//! kept as it came.

use crate::pattern::captures;
use crate::pattern::group;
use crate::pattern::nth_group;
use crate::pattern::regex_captures;
use crate::pattern::Groups;
use crate::pattern::CHAT_SHAPE;
use crate::pattern::JOIN_SHAPE;
use crate::pattern::LOG_SHAPE;
use crate::text::contains_text;
use crate::text::occurs_in;
use crate::text::same_text;
use vstd::prelude::*;
use vstd::string::StringExecFns;

verus! {

/// The sender under which the server reports joins and leaves.
pub const SERVER_THREAD: &'static str = "Server thread/INFO";

/// The speaker under which a voice chat plugin prints lines that look like
/// chat and are not.
pub const VOICECHAT: &'static str = "voicechat";

/// What marks the housekeeping lines of the command console.
pub const CONSOLE_NOISE: &'static str = "Thread RCON Client";

#[derive(Debug, Clone, Copy, PartialEq, Eq)]
pub enum RosterAction {
    Joined,
    Left,
}

/// What a console line says.
#[derive(Debug, PartialEq, Eq)]
pub enum ClassifiedRecord {
    /// A line for the log: an unstructured line as it came, or a structured
    /// one put together again from its parts.
    Generic { text: String },
    /// Something a participant said, with the brackets that stood around the
    /// speaker's name.
    Chat { open: String, speaker: String, close: String, body: String },
    /// A participant came or went. `text` is the content that said so.
    RosterEvent { name: String, action: RosterAction, text: String },
    /// A line that is recognised and dropped.
    Noise,
}

pub enum RecordView {
    Generic { text: Seq<char> },
    Chat { open: Seq<char>, speaker: Seq<char>, close: Seq<char>, body: Seq<char> },
    RosterEvent { name: Seq<char>, action: RosterAction, text: Seq<char> },
    Noise,
}

impl View for ClassifiedRecord {
    type V = RecordView;

    open spec fn view(&self) -> RecordView {
        match self {
            ClassifiedRecord::Generic { text } => RecordView::Generic { text: text@ },
            ClassifiedRecord::Chat { open, speaker, close, body } => RecordView::Chat {
                open: open@,
                speaker: speaker@,
                close: close@,
                body: body@,
            },
            ClassifiedRecord::RosterEvent { name, action, text } => RecordView::RosterEvent {
                name: name@,
                action: *action,
                text: text@,
            },
            ClassifiedRecord::Noise => RecordView::Noise,
        }
    }
}

/// The time, sender and content of a structured line.
pub open spec fn structured_parts(found: Option<Seq<Option<Seq<char>>>>) -> Option<
    (Seq<char>, Seq<char>, Seq<char>),
> {
    match (group(found, 1), group(found, 2), group(found, 3)) {
        (Some(time), Some(sender), Some(content)) => Some((time, sender, content)),
        _ => None,
    }
}

/// The opening bracket, name, closing bracket and message of chat.
pub open spec fn chat_parts(found: Option<Seq<Option<Seq<char>>>>) -> Option<
    (Seq<char>, Seq<char>, Seq<char>, Seq<char>),
> {
    match (group(found, 1), group(found, 2), group(found, 3), group(found, 4)) {
        (Some(open), Some(speaker), Some(close), Some(body)) => Some((open, speaker, close, body)),
        _ => None,
    }
}

/// The name and the action of a join or leave message.
pub open spec fn join_parts(found: Option<Seq<Option<Seq<char>>>>) -> Option<
    (Seq<char>, RosterAction),
> {
    match (group(found, 1), group(found, 2)) {
        (Some(name), Some(verb)) => if verb == "joined"@ {
            Some((name, RosterAction::Joined))
        } else if verb == "left"@ {
            Some((name, RosterAction::Left))
        } else {
            None
        },
        _ => None,
    }
}

/// A structured line, written out again.
pub open spec fn reconstruct(time: Seq<char>, sender: Seq<char>, content: Seq<char>) -> Seq<char> {
    "["@ + time + "] ["@ + sender + "]: "@ + content
}

/// The content is chat: it has the chat shape, and its speaker is a
/// participant.
pub open spec fn is_chat(chat: Option<Seq<Option<Seq<char>>>>) -> bool {
    chat_parts(chat) matches Some((_, speaker, _, _)) && speaker != VOICECHAT@
}

/// The record of a structured line, given what the chat shape and the join
/// shape found in its content.
pub open spec fn classify_structured_spec(
    time: Seq<char>,
    sender: Seq<char>,
    content: Seq<char>,
    chat: Option<Seq<Option<Seq<char>>>>,
    join: Option<Seq<Option<Seq<char>>>>,
) -> RecordView {
    if is_chat(chat) {
        let (open, speaker, close, body) = chat_parts(chat)->0;
        RecordView::Chat { open, speaker, close, body }
    } else if occurs_in(CONSOLE_NOISE@, content) {
        RecordView::Noise
    } else if sender == SERVER_THREAD@ && join_parts(join) is Some {
        let (name, action) = join_parts(join)->0;
        RecordView::RosterEvent { name, action, text: content }
    } else {
        RecordView::Generic { text: reconstruct(time, sender, content) }
    }
}

/// The content of a structured line; `None` for a line that is not
/// structured.
pub open spec fn content_of(line: Seq<char>) -> Option<Seq<char>> {
    match structured_parts(regex_captures(LOG_SHAPE@, line)) {
        Some((_, _, content)) => Some(content),
        None => None,
    }
}

/// The name between the brackets of chat-shaped content.
pub open spec fn speaker_of(content: Seq<char>) -> Option<Seq<char>> {
    match chat_parts(regex_captures(CHAT_SHAPE@, content)) {
        Some((_, speaker, _, _)) => Some(speaker),
        None => None,
    }
}

/// The record of any line.
pub open spec fn classify_spec(line: Seq<char>) -> RecordView {
    match structured_parts(regex_captures(LOG_SHAPE@, line)) {
        Some((time, sender, content)) => classify_structured_spec(
            time,
            sender,
            content,
            regex_captures(CHAT_SHAPE@, content),
            regex_captures(JOIN_SHAPE@, content),
        ),
        None => RecordView::Generic { text: line },
    }
}

fn rebuild(time: &str, sender: &str, content: &str) -> (r: String)
    ensures
        r@ == reconstruct(time@, sender@, content@),
{
    let mut out = String::from_str("[");
    out.append(time);
    out.append("] [");
    out.append(sender);
    out.append("]: ");
    out.append(content);
    out
}

fn roster_event(join: &Option<Groups>) -> (r: Option<(String, RosterAction)>)
    ensures
        match r {
            Some((name, action)) => join_parts(join.deep_view()) == Some((name@, action)),
            None => join_parts(join.deep_view()) is None,
        },
{
    match (nth_group(join, 1), nth_group(join, 2)) {
        (Some(name), Some(verb)) => {
            if same_text(verb.as_str(), "joined") {
                Some((name, RosterAction::Joined))
            } else if same_text(verb.as_str(), "left") {
                Some((name, RosterAction::Left))
            } else {
                None
            }
        },
        _ => None,
    }
}

/// Sorts a structured line, given its three parts and what the chat shape
/// and the join shape found in its content.
pub fn classify_structured(
    time: &str,
    sender: &str,
    content: &str,
    chat: &Option<Groups>,
    join: &Option<Groups>,
) -> (r: ClassifiedRecord)
    ensures
        r@ == classify_structured_spec(time@, sender@, content@, chat.deep_view(), join.deep_view()),
{
    match (nth_group(chat, 1), nth_group(chat, 2), nth_group(chat, 3), nth_group(chat, 4)) {
        (Some(open), Some(speaker), Some(close), Some(body)) => {
            if !same_text(speaker.as_str(), VOICECHAT) {
                return ClassifiedRecord::Chat { open, speaker, close, body };
            }
        },
        _ => {},
    }
    if contains_text(content, CONSOLE_NOISE) {
        return ClassifiedRecord::Noise;
    }
    if same_text(sender, SERVER_THREAD) {
        match roster_event(join) {
            Some((name, action)) => {
                return ClassifiedRecord::RosterEvent { name, action, text: content.to_owned() };
            },
            None => {},
        }
    }
    ClassifiedRecord::Generic { text: rebuild(time, sender, content) }
}

/// Sorts a line.
///
/// A line that is not structured is kept as it came. What the voice chat
/// plugin prints is never chat. Console noise is dropped, unless a
/// participant said it.
pub fn classify(line: &str) -> (r: ClassifiedRecord)
    ensures
        r@ == classify_spec(line@),
        content_of(line@) is None ==> r@ == (RecordView::Generic { text: line@ }),
        content_of(line@) matches Some(content) && speaker_of(content) == Some(VOICECHAT@) ==> !(r@ is Chat),
        content_of(line@) matches Some(content) && occurs_in(CONSOLE_NOISE@, content) && (speaker_of(
            content,
        ) is None || speaker_of(content) == Some(VOICECHAT@)) ==> r@ is Noise,
{
    let found = captures(LOG_SHAPE, line);
    match (nth_group(&found, 1), nth_group(&found, 2), nth_group(&found, 3)) {
        (Some(time), Some(sender), Some(content)) => {
            let chat = captures(CHAT_SHAPE, content.as_str());
            let join = captures(JOIN_SHAPE, content.as_str());
            classify_structured(time.as_str(), sender.as_str(), content.as_str(), &chat, &join)
        },
        _ => ClassifiedRecord::Generic { text: line.to_owned() },
    }
}

} // verus!
