//! The stream tailer: turns what the log source delivers into lines, and
//! the lines into the log, the chat and the roster.
//!
//! The source never ends while the server runs, so the tailer never waits for
//! it. It works in steps: it asks for one read bounded by the idle timeout,
//! is told what came of it, and either asks again or ends the refresh. A
//! read that brought nothing within the timeout means that the tailer has
//! caught up. Bytes of a line that is not yet complete are kept for the next
//! read, and the next refresh: the tailer is opened once and only ever moves
//! forward.

use crate::classifier::classify;
use crate::classifier::classify_spec;
use crate::classifier::ClassifiedRecord;
use crate::classifier::RecordView;
use crate::log_manager::ProcessError;
use crate::roster::distinct;
use crate::roster::lemma_roster_after_distinct;
use crate::roster::notice_for;
use crate::roster::roster_after;
use crate::roster::Roster;
use crate::text::clone_texts;
use crate::text::decode_lossy;
use crate::text::utf8_lossy;
use vstd::prelude::*;
use vstd::string::StringExecFns;

verus! {

/// The byte that ends a line.
pub const LINE_FEED: u8 = 10;

/// The byte that may stand before the end of a line and is not part of it.
pub const CARRIAGE_RETURN: u8 = 13;

/// What one read from a source came to.
#[derive(Debug, PartialEq, Eq)]
pub enum ReadEvent {
    /// These bytes arrived.
    Data(Vec<u8>),
    /// Nothing arrived within the timeout.
    Idle,
    /// The source has ended.
    Closed,
    /// The read failed.
    Failed,
}

pub enum ReadEventView {
    Data(Seq<u8>),
    Idle,
    Closed,
    Failed,
}

impl View for ReadEvent {
    type V = ReadEventView;

    open spec fn view(&self) -> ReadEventView {
        match self {
            ReadEvent::Data(bytes) => ReadEventView::Data(bytes@),
            ReadEvent::Idle => ReadEventView::Idle,
            ReadEvent::Closed => ReadEventView::Closed,
            ReadEvent::Failed => ReadEventView::Failed,
        }
    }
}

/// What a refresh needs next.
#[derive(Debug, Clone, Copy, PartialEq, Eq)]
pub enum ProcessStep {
    /// One read from the log source, given up after `timeout_ms` milliseconds
    /// without a byte.
    Read { timeout_ms: u64 },
    /// Nothing: the refresh is over.
    Done(Result<(), ProcessError>),
}

/// What has been gathered from the log.
pub struct Ledger {
    pub logs: Seq<Seq<char>>,
    pub chat: Seq<Seq<char>>,
    pub players: Seq<Seq<char>>,
}

/// How chat is shown: the speaker in the brackets that were used, a colon,
/// and what was said.
pub open spec fn chat_line(open: Seq<char>, speaker: Seq<char>, close: Seq<char>, body: Seq<char>) -> Seq<
    char,
> {
    open + speaker + close + ": "@ + body
}

/// The ledger after one record. Log lines go to the log and chat to the
/// chat; a roster event changes the roster and, where it does, leaves its
/// text in the chat; noise leaves nothing.
pub open spec fn absorb(ledger: Ledger, record: RecordView) -> Ledger {
    match record {
        RecordView::Generic { text } => Ledger { logs: ledger.logs.push(text), ..ledger },
        RecordView::Chat { open, speaker, close, body } => Ledger {
            chat: ledger.chat.push(chat_line(open, speaker, close, body)),
            ..ledger
        },
        RecordView::RosterEvent { name, action, text } => Ledger {
            players: roster_after(ledger.players, name, action),
            chat: match notice_for(ledger.players, name, action, text) {
                Some(notice) => ledger.chat.push(notice),
                None => ledger.chat,
            },
            ..ledger
        },
        RecordView::Noise => ledger,
    }
}

/// A line without the carriage return that may end it.
pub open spec fn strip_return(line: Seq<u8>) -> Seq<u8> {
    if line.len() > 0 && line.last() == CARRIAGE_RETURN {
        line.drop_last()
    } else {
        line
    }
}

/// The ledger after the bytes of one line, given without the line feed. An
/// empty line leaves nothing.
pub open spec fn take_line(ledger: Ledger, line: Seq<u8>) -> Ledger {
    let bare = strip_return(line);
    if bare.len() == 0 {
        ledger
    } else {
        absorb(ledger, classify_spec(utf8_lossy(bare)))
    }
}

/// The ledger, and the bytes of the line that has begun.
pub struct Intake {
    pub ledger: Ledger,
    pub pending: Seq<u8>,
}

/// The line that has begun is over.
pub open spec fn end_line(intake: Intake) -> Intake {
    Intake { ledger: take_line(intake.ledger, intake.pending), pending: Seq::empty() }
}

pub open spec fn feed_byte(intake: Intake, byte: u8) -> Intake {
    if byte == LINE_FEED {
        end_line(intake)
    } else {
        Intake { pending: intake.pending.push(byte), ..intake }
    }
}

/// The intake after `bytes` have arrived, one after the other.
pub open spec fn feed(intake: Intake, bytes: Seq<u8>) -> Intake
    decreases bytes.len(),
{
    if bytes.len() == 0 {
        intake
    } else {
        feed_byte(feed(intake, bytes.drop_last()), bytes.last())
    }
}

fn push_text(list: &mut Vec<String>, text: String)
    ensures
        final(list).deep_view() == old(list).deep_view().push(text@),
{
    list.push(text);
}

fn render_chat(open: &str, speaker: &str, close: &str, body: &str) -> (r: String)
    ensures
        r@ == chat_line(open@, speaker@, close@, body@),
{
    let mut out = open.to_owned();
    out.append(speaker);
    out.append(close);
    out.append(": ");
    out.append(body);
    out
}

/// Enters one record into the roster, the chat and the log.
pub fn record_event(
    record: ClassifiedRecord,
    players: &mut Roster,
    chat: &mut Vec<String>,
    logs: &mut Vec<String>,
)
    ensures
        (Ledger {
            logs: final(logs).deep_view(),
            chat: final(chat).deep_view(),
            players: final(players)@,
        }) == absorb(
            Ledger { logs: old(logs).deep_view(), chat: old(chat).deep_view(), players: old(players)@ },
            record@,
        ),
        record@ is Noise ==> {
            &&& final(logs).deep_view() == old(logs).deep_view()
            &&& final(chat).deep_view() == old(chat).deep_view()
            &&& final(players)@ == old(players)@
        },
        distinct(final(players)@),
{
    proof {
        use_type_invariant(&*players);
    }
    match record {
        ClassifiedRecord::Generic { text } => {
            push_text(logs, text);
        },
        ClassifiedRecord::Chat { open, speaker, close, body } => {
            let shown = render_chat(open.as_str(), speaker.as_str(), close.as_str(), body.as_str());
            push_text(chat, shown);
        },
        ClassifiedRecord::RosterEvent { name, action, text } => {
            match players.apply(name.as_str(), action, text.as_str()) {
                Some(notice) => {
                    push_text(chat, notice);
                },
                None => {},
            }
        },
        ClassifiedRecord::Noise => {},
    }
}

/// Sorts one line and enters it into the roster, the chat and the log.
pub fn process_log(line: &str, players: &mut Roster, chat: &mut Vec<String>, logs: &mut Vec<String>)
    ensures
        (Ledger {
            logs: final(logs).deep_view(),
            chat: final(chat).deep_view(),
            players: final(players)@,
        }) == absorb(
            Ledger { logs: old(logs).deep_view(), chat: old(chat).deep_view(), players: old(players)@ },
            classify_spec(line@),
        ),
        classify_spec(line@) is Noise ==> {
            &&& final(logs).deep_view() == old(logs).deep_view()
            &&& final(chat).deep_view() == old(chat).deep_view()
            &&& final(players)@ == old(players)@
        },
        distinct(final(players)@),
{
    let record = classify(line);
    record_event(record, players, chat, logs);
}

/// What the tailer holds: the ledger, the line that has begun, and how long
/// it lets a read wait.
pub struct TailerView {
    pub intake: Intake,
    pub idle_read_ms: u64,
}

/// A tailer that has read nothing yet.
pub open spec fn fresh(idle_read_ms: u64) -> TailerView {
    TailerView {
        intake: Intake {
            ledger: Ledger { logs: Seq::empty(), chat: Seq::empty(), players: Seq::empty() },
            pending: Seq::empty(),
        },
        idle_read_ms,
    }
}

/// One step of a refresh: the tailer after a read, and what it needs next.
///
/// Bytes are taken in and more are asked for. A read that brought nothing
/// ends the refresh in success. The end of the source ends the line that has
/// begun and the refresh, with `StreamClosed`; a failed read ends the refresh
/// with `IoError`.
pub open spec fn tail_step(tailer: TailerView, event: ReadEventView) -> (TailerView, ProcessStep) {
    match event {
        ReadEventView::Data(bytes) => (
            TailerView { intake: feed(tailer.intake, bytes), ..tailer },
            ProcessStep::Read { timeout_ms: tailer.idle_read_ms },
        ),
        ReadEventView::Idle => (tailer, ProcessStep::Done(Ok(()))),
        ReadEventView::Closed => (
            TailerView { intake: end_line(tailer.intake), ..tailer },
            ProcessStep::Done(Err(ProcessError::StreamClosed)),
        ),
        ReadEventView::Failed => (tailer, ProcessStep::Done(Err(ProcessError::IoError))),
    }
}

/// The tailer after a run of reads.
pub open spec fn run(tailer: TailerView, events: Seq<ReadEventView>) -> TailerView
    decreases events.len(),
{
    if events.len() == 0 {
        tailer
    } else {
        tail_step(run(tailer, events.drop_last()), events.last()).0
    }
}

/// What is in the log and in the chat stays there, in its place: a record
/// adds to the end or adds nothing. Noise adds nothing anywhere, and no record
/// puts a name on the roster twice.
pub proof fn lemma_absorb_appends(ledger: Ledger, record: RecordView)
    ensures
        ledger.logs.is_prefix_of(absorb(ledger, record).logs),
        ledger.chat.is_prefix_of(absorb(ledger, record).chat),
        record is Noise ==> absorb(ledger, record) == ledger,
        distinct(ledger.players) ==> distinct(absorb(ledger, record).players),
{
    match record {
        RecordView::RosterEvent { name, action, text } => {
            if distinct(ledger.players) {
                lemma_roster_after_distinct(ledger.players, name, action);
            }
        },
        _ => {},
    }
}

/// The log and the chat only grow, whatever arrives, and the roster never
/// comes to hold a name twice.
pub proof fn lemma_feed_appends(intake: Intake, bytes: Seq<u8>)
    ensures
        intake.ledger.logs.is_prefix_of(feed(intake, bytes).ledger.logs),
        intake.ledger.chat.is_prefix_of(feed(intake, bytes).ledger.chat),
        distinct(intake.ledger.players) ==> distinct(feed(intake, bytes).ledger.players),
    decreases bytes.len(),
{
    if bytes.len() > 0 {
        let before = feed(intake, bytes.drop_last());
        lemma_feed_appends(intake, bytes.drop_last());
        if bytes.last() == LINE_FEED {
            let bare = strip_return(before.pending);
            if bare.len() > 0 {
                lemma_absorb_appends(before.ledger, classify_spec(utf8_lossy(bare)));
            }
        }
    }
}

/// No step of a refresh puts a name on the roster twice.
pub proof fn lemma_tail_step_distinct(tailer: TailerView, event: ReadEventView)
    requires
        distinct(tailer.intake.ledger.players),
    ensures
        distinct(tail_step(tailer, event).0.intake.ledger.players),
{
    match event {
        ReadEventView::Data(bytes) => {
            lemma_feed_appends(tailer.intake, bytes);
        },
        ReadEventView::Closed => {
            let bare = strip_return(tailer.intake.pending);
            if bare.len() > 0 {
                lemma_absorb_appends(tailer.intake.ledger, classify_spec(utf8_lossy(bare)));
            }
        },
        _ => {},
    }
}

/// Bytes that arrive in two reads are taken as if they had arrived in one:
/// where a read ends has no bearing on the lines.
pub proof fn lemma_feed_concat(intake: Intake, first: Seq<u8>, second: Seq<u8>)
    ensures
        feed(feed(intake, first), second) == feed(intake, first + second),
    decreases second.len(),
{
    if second.len() == 0 {
        assert(first + second =~= first);
    } else {
        lemma_feed_concat(intake, first, second.drop_last());
        assert((first + second).drop_last() =~= first + second.drop_last());
    }
}

/// Bytes without a line feed add to the line that has begun and leave the
/// ledger as it is.
pub proof fn lemma_feed_within_line(intake: Intake, bytes: Seq<u8>)
    requires
        !bytes.contains(LINE_FEED),
    ensures
        feed(intake, bytes) == (Intake { pending: intake.pending + bytes, ..intake }),
    decreases bytes.len(),
{
    if bytes.len() == 0 {
        assert(intake.pending + bytes =~= intake.pending);
    } else {
        let front = bytes.drop_last();
        assert forall|k: int| 0 <= k < front.len() implies front[k] != LINE_FEED by {
            assert(bytes[k] == front[k]);
        }
        lemma_feed_within_line(intake, front);
        assert((intake.pending + front).push(bytes.last()) =~= intake.pending + bytes);
    }
}

/// A whole line, with its line feed, is taken as one line.
pub proof fn lemma_feed_line(ledger: Ledger, line: Seq<u8>)
    requires
        !line.contains(LINE_FEED),
    ensures
        feed(Intake { ledger, pending: Seq::empty() }, line.push(LINE_FEED)) == (Intake {
            ledger: take_line(ledger, line),
            pending: Seq::empty(),
        }),
{
    let start = Intake { ledger, pending: Seq::empty() };
    lemma_feed_within_line(start, line);
    assert(line.push(LINE_FEED).drop_last() =~= line);
}

/// Two tailers that hold the same ledger and the same begun line hold the
/// same after the same reads, whatever their timeouts: what a tailer has
/// gathered depends on what it has read, and on nothing else.
pub proof fn lemma_replay(a: TailerView, b: TailerView, events: Seq<ReadEventView>)
    requires
        a.intake == b.intake,
    ensures
        run(a, events).intake == run(b, events).intake,
        run(a, events).idle_read_ms == a.idle_read_ms,
    decreases events.len(),
{
    if events.len() > 0 {
        lemma_replay(a, b, events.drop_last());
    }
}

/// The stream tailer.
pub struct StreamTailer {
    logs: Vec<String>,
    chat: Vec<String>,
    players: Roster,
    pending: Vec<u8>,
    idle_read_ms: u64,
}

impl View for StreamTailer {
    type V = TailerView;

    closed spec fn view(&self) -> TailerView {
        TailerView {
            intake: Intake {
                ledger: Ledger {
                    logs: self.logs.deep_view(),
                    chat: self.chat.deep_view(),
                    players: self.players@,
                },
                pending: self.pending@,
            },
            idle_read_ms: self.idle_read_ms,
        }
    }
}

impl StreamTailer {
    /// A tailer that has read nothing yet and lets a read wait `idle_read_ms`
    /// milliseconds.
    pub fn new(idle_read_ms: u64) -> (r: StreamTailer)
        ensures
            r@ == fresh(idle_read_ms),
    {
        let r = StreamTailer {
            logs: Vec::new(),
            chat: Vec::new(),
            players: Roster::new(),
            pending: Vec::new(),
            idle_read_ms,
        };
        assert(r.logs.deep_view() =~= Seq::<Seq<char>>::empty());
        assert(r.chat.deep_view() =~= Seq::<Seq<char>>::empty());
        r
    }

    /// Begins a refresh: the first read is asked for.
    pub fn begin(&self) -> (step: ProcessStep)
        ensures
            step == (ProcessStep::Read { timeout_ms: self@.idle_read_ms }),
    {
        ProcessStep::Read { timeout_ms: self.idle_read_ms }
    }

    /// Goes on with a refresh: takes what the read came to, and says what is
    /// needed next.
    pub fn on_read(&mut self, event: ReadEvent) -> (step: ProcessStep)
        ensures
            (final(self)@, step) == tail_step(old(self)@, event@),
            distinct(final(self)@.intake.ledger.players),
    {
        proof {
            use_type_invariant(&self.players);
        }
        match event {
            ReadEvent::Data(bytes) => {
                self.take_bytes(&bytes);
                ProcessStep::Read { timeout_ms: self.idle_read_ms }
            },
            ReadEvent::Idle => ProcessStep::Done(Ok(())),
            ReadEvent::Closed => {
                self.finish_line();
                ProcessStep::Done(Err(ProcessError::StreamClosed))
            },
            ReadEvent::Failed => ProcessStep::Done(Err(ProcessError::IoError)),
        }
    }

    fn take_bytes(&mut self, bytes: &Vec<u8>)
        ensures
            final(self)@ == (TailerView { intake: feed(old(self)@.intake, bytes@), ..old(self)@ }),
            distinct(final(self)@.intake.ledger.players),
    {
        proof {
            use_type_invariant(&self.players);
        }
        let ghost start = self@;
        let mut at: usize = 0;
        while at < bytes.len()
            invariant
                at <= bytes.len(),
                self@ == (TailerView { intake: feed(start.intake, bytes@.take(at as int)), ..start }),
                distinct(self@.intake.ledger.players),
            decreases bytes.len() - at,
        {
            let byte = bytes[at];
            if byte == LINE_FEED {
                self.finish_line();
            } else {
                self.pending.push(byte);
            }
            assert(bytes@.take(at + 1).drop_last() =~= bytes@.take(at as int));
            at += 1;
        }
        assert(bytes@.take(bytes.len() as int) =~= bytes@);
    }

    fn finish_line(&mut self)
        ensures
            final(self)@ == (TailerView { intake: end_line(old(self)@.intake), ..old(self)@ }),
            distinct(final(self)@.intake.ledger.players),
    {
        let mut line: Vec<u8> = Vec::new();
        std::mem::swap(&mut self.pending, &mut line);
        if line.len() > 0 && line[line.len() - 1] == CARRIAGE_RETURN {
            line.pop();
        }
        if line.len() > 0 {
            let text = decode_lossy(line.as_slice());
            process_log(text.as_str(), &mut self.players, &mut self.chat, &mut self.logs);
        } else {
            proof {
                use_type_invariant(&self.players);
            }
        }
    }

    /// The log, oldest line first.
    pub fn logs(&self) -> (r: Vec<String>)
        ensures
            r.deep_view() == self@.intake.ledger.logs,
    {
        clone_texts(&self.logs)
    }

    /// The chat, oldest entry first.
    pub fn chat(&self) -> (r: Vec<String>)
        ensures
            r.deep_view() == self@.intake.ledger.chat,
    {
        clone_texts(&self.chat)
    }

    /// Who is connected. No name stands twice.
    pub fn players(&self) -> (r: Vec<String>)
        ensures
            r.deep_view() == self@.intake.ledger.players,
            distinct(self@.intake.ledger.players),
    {
        self.players.names()
    }
}

} // verus!
