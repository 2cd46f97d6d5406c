//! The command channel: one command goes out over an interactive console,
//! and what the console answers to it comes back.
//!
//! The console is a pair of byte streams that stay open and carry no frames,
//! so an exchange has three phases, one after the other. *Draining* reads
//! away what the console still holds from earlier, until a read brings
//! nothing within the idle timeout. *Writing* sends the command. *Capturing*
//! reads the answer until the console prints its prompt or falls silent.
//!
//! The channel does none of the reading and writing. It says what is needed
//! next and is told what came of it. At most one exchange is under way: a
//! command sent while another is in flight is refused, and an event that
//! answers nothing the channel asked for changes nothing.

use crate::tailer::ReadEvent;
use crate::tailer::ReadEventView;
use crate::text::decode_lossy;
use crate::text::utf8_lossy;
use vstd::prelude::*;
use vstd::string::StrSliceExecFns;
use vstd::string::StringExecFns;
use vstd::utf8::encode_utf8;

verus! {

/// The byte that the console prints when it is ready for the next command.
pub const PROMPT: u8 = 62;

/// How long a read may wait for a byte, in milliseconds, unless told
/// otherwise.
pub const IDLE_READ_MS: u64 = 10;

/// How long a write may take, in milliseconds, unless told otherwise.
pub const WRITE_MS: u64 = 1000;

/// How long the reads and writes of a session may take.
#[derive(Debug, Clone, Copy, PartialEq, Eq)]
pub struct Timeouts {
    /// A read that brings no byte for this long has found the stream silent.
    pub idle_read_ms: u64,
    /// A write that takes longer than this has failed.
    pub write_ms: u64,
}

impl Default for Timeouts {
    fn default() -> (r: Timeouts)
        ensures
            r == (Timeouts { idle_read_ms: IDLE_READ_MS, write_ms: WRITE_MS }),
    {
        Timeouts { idle_read_ms: IDLE_READ_MS, write_ms: WRITE_MS }
    }
}

/// Why a command got no answer.
#[derive(Debug, Clone, Copy, PartialEq, Eq)]
pub enum ChannelError {
    /// The command could not be written in time.
    WriteTimeout,
    /// The console is gone: a stream has ended, or a read or write failed.
    ChannelClosed,
    /// Another command is in flight.
    Busy,
}

/// What the driver of an exchange reports back.
#[derive(Debug, PartialEq, Eq)]
pub enum ChannelEvent {
    /// What a read came to.
    Read(ReadEvent),
    /// The command has been written.
    Written,
    /// The write was given up after its timeout.
    WriteTimedOut,
    /// The write failed.
    WriteFailed,
}

pub enum ChannelEventView {
    Read(ReadEventView),
    Written,
    WriteTimedOut,
    WriteFailed,
}

impl View for ChannelEvent {
    type V = ChannelEventView;

    open spec fn view(&self) -> ChannelEventView {
        match self {
            ChannelEvent::Read(event) => ChannelEventView::Read(event@),
            ChannelEvent::Written => ChannelEventView::Written,
            ChannelEvent::WriteTimedOut => ChannelEventView::WriteTimedOut,
            ChannelEvent::WriteFailed => ChannelEventView::WriteFailed,
        }
    }
}

/// What an exchange needs next.
#[derive(Debug, PartialEq, Eq)]
pub enum ChannelStep {
    /// Nothing: no exchange is under way.
    Idle,
    /// One read from the console, given up after `timeout_ms` milliseconds
    /// without a byte.
    Read { timeout_ms: u64 },
    /// These bytes written to the console, within `timeout_ms` milliseconds.
    Write { bytes: Vec<u8>, timeout_ms: u64 },
    /// Nothing: the exchange is over, with the answer or the reason why there
    /// is none.
    Done(Result<String, ChannelError>),
}

pub enum ChannelStepView {
    Idle,
    Read { timeout_ms: u64 },
    Write { bytes: Seq<u8>, timeout_ms: u64 },
    Done(Result<Seq<char>, ChannelError>),
}

impl View for ChannelStep {
    type V = ChannelStepView;

    open spec fn view(&self) -> ChannelStepView {
        match self {
            ChannelStep::Idle => ChannelStepView::Idle,
            ChannelStep::Read { timeout_ms } => ChannelStepView::Read { timeout_ms: *timeout_ms },
            ChannelStep::Write { bytes, timeout_ms } => ChannelStepView::Write {
                bytes: bytes@,
                timeout_ms: *timeout_ms,
            },
            ChannelStep::Done(Ok(answer)) => ChannelStepView::Done(Ok(answer@)),
            ChannelStep::Done(Err(error)) => ChannelStepView::Done(Err(*error)),
        }
    }
}

/// Where an exchange stands.
pub enum ExchangeView {
    /// None is under way.
    Ready,
    /// Old output is being read away; `request` waits to be written.
    Draining { request: Seq<u8> },
    /// `request` is being written.
    Writing { request: Seq<u8> },
    /// The answer is being read; `captured` has arrived so far.
    Capturing { captured: Seq<u8> },
}

enum Exchange {
    Ready,
    Draining { request: Vec<u8> },
    Writing { request: Vec<u8> },
    Capturing { captured: Vec<u8> },
}

impl View for Exchange {
    type V = ExchangeView;

    closed spec fn view(&self) -> ExchangeView {
        match self {
            Exchange::Ready => ExchangeView::Ready,
            Exchange::Draining { request } => ExchangeView::Draining { request: request@ },
            Exchange::Writing { request } => ExchangeView::Writing { request: request@ },
            Exchange::Capturing { captured } => ExchangeView::Capturing { captured: captured@ },
        }
    }
}

/// What a channel holds: the answer to the last command that got one, the
/// exchange under way, and its timeouts.
pub struct ChannelView {
    pub output: Seq<char>,
    pub exchange: ExchangeView,
    pub timeouts: Timeouts,
}

/// A message that begins with a slash is a command already.
pub open spec fn is_command(message: Seq<char>) -> bool {
    message.len() > 0 && message[0] == '/'
}

/// What is sent for a message: a command as it is, anything else as a `say`
/// command that broadcasts it.
pub open spec fn command_text(message: Seq<char>) -> Seq<char> {
    if is_command(message) {
        message
    } else {
        "say "@ + message
    }
}

/// The bytes that go to the console for a message: the command and a line
/// feed.
pub open spec fn wire_form(message: Seq<char>) -> Seq<u8> {
    encode_utf8(command_text(message) + "\n"@)
}

/// The first prompt in `bytes` stands at `at`.
pub open spec fn first_prompt(bytes: Seq<u8>, at: int) -> bool {
    &&& 0 <= at < bytes.len()
    &&& bytes[at] == PROMPT
    &&& forall|k: int| 0 <= k < at ==> bytes[k] != PROMPT
}

/// What stands before the first prompt in `bytes`; `None` where `bytes`
/// hold no prompt.
pub open spec fn before_prompt(bytes: Seq<u8>) -> Option<Seq<u8>> {
    if exists|at: int| first_prompt(bytes, at) {
        Some(bytes.take(choose|at: int| first_prompt(bytes, at)))
    } else {
        None
    }
}

/// What the channel is waiting for.
pub open spec fn pending_step(channel: ChannelView) -> ChannelStepView {
    match channel.exchange {
        ExchangeView::Ready => ChannelStepView::Idle,
        ExchangeView::Draining { .. } => ChannelStepView::Read {
            timeout_ms: channel.timeouts.idle_read_ms,
        },
        ExchangeView::Writing { request } => ChannelStepView::Write {
            bytes: request,
            timeout_ms: channel.timeouts.write_ms,
        },
        ExchangeView::Capturing { .. } => ChannelStepView::Read {
            timeout_ms: channel.timeouts.idle_read_ms,
        },
    }
}

/// The channel in another phase of its exchange, and what it then waits for.
pub open spec fn moved(channel: ChannelView, exchange: ExchangeView) -> (ChannelView, ChannelStepView) {
    let next = ChannelView { exchange, ..channel };
    (next, pending_step(next))
}

/// The exchange ends with an answer, which the channel keeps.
pub open spec fn concluded(channel: ChannelView, answer: Seq<char>) -> (ChannelView, ChannelStepView) {
    (
        ChannelView { output: answer, exchange: ExchangeView::Ready, ..channel },
        ChannelStepView::Done(Ok(answer)),
    )
}

/// The exchange ends without an answer. The channel keeps the answer it had.
pub open spec fn broken(channel: ChannelView, error: ChannelError) -> (ChannelView, ChannelStepView) {
    (ChannelView { exchange: ExchangeView::Ready, ..channel }, ChannelStepView::Done(Err(error)))
}

/// A command is sent: where no exchange is under way, one begins by
/// draining; else the command is refused.
pub open spec fn send_step(channel: ChannelView, message: Seq<char>) -> (ChannelView, ChannelStepView) {
    if channel.exchange is Ready {
        moved(channel, ExchangeView::Draining { request: wire_form(message) })
    } else {
        (channel, ChannelStepView::Done(Err(ChannelError::Busy)))
    }
}

/// One step of an exchange: the channel after an event, and what it needs
/// next.
pub open spec fn channel_step(channel: ChannelView, event: ChannelEventView) -> (
    ChannelView,
    ChannelStepView,
) {
    match (channel.exchange, event) {
        (ExchangeView::Draining { request }, ChannelEventView::Read(read)) => match read {
            ReadEventView::Data(_) => (channel, pending_step(channel)),
            ReadEventView::Idle => moved(channel, ExchangeView::Writing { request }),
            ReadEventView::Closed => broken(channel, ChannelError::ChannelClosed),
            ReadEventView::Failed => broken(channel, ChannelError::ChannelClosed),
        },
        (ExchangeView::Writing { .. }, ChannelEventView::Written) => moved(
            channel,
            ExchangeView::Capturing { captured: Seq::empty() },
        ),
        (ExchangeView::Writing { .. }, ChannelEventView::WriteTimedOut) => broken(
            channel,
            ChannelError::WriteTimeout,
        ),
        (ExchangeView::Writing { .. }, ChannelEventView::WriteFailed) => broken(
            channel,
            ChannelError::ChannelClosed,
        ),
        (ExchangeView::Capturing { captured }, ChannelEventView::Read(read)) => match read {
            ReadEventView::Data(bytes) => match before_prompt(bytes) {
                Some(head) => concluded(channel, utf8_lossy(captured + head)),
                None => moved(channel, ExchangeView::Capturing { captured: captured + bytes }),
            },
            ReadEventView::Idle => concluded(channel, utf8_lossy(captured)),
            ReadEventView::Closed => broken(channel, ChannelError::ChannelClosed),
            ReadEventView::Failed => broken(channel, ChannelError::ChannelClosed),
        },
        _ => (channel, pending_step(channel)),
    }
}

/// The channel after a run of events, and what it needed last.
pub open spec fn drive(channel: ChannelView, events: Seq<ChannelEventView>) -> (
    ChannelView,
    ChannelStepView,
)
    decreases events.len(),
{
    if events.len() == 0 {
        (channel, pending_step(channel))
    } else {
        channel_step(drive(channel, events.drop_last()).0, events.last())
    }
}

/// Chunks of bytes, one after the other.
pub open spec fn chained(chunks: Seq<Seq<u8>>) -> Seq<u8>
    decreases chunks.len(),
{
    if chunks.len() == 0 {
        Seq::empty()
    } else {
        chained(chunks.drop_last()) + chunks.last()
    }
}

/// The reads that bring `chunks`, one read for each.
pub open spec fn data_events(chunks: Seq<Seq<u8>>) -> Seq<ChannelEventView> {
    Seq::new(chunks.len(), |i: int| ChannelEventView::Read(ReadEventView::Data(chunks[i])))
}

/// There is one first prompt at most.
pub proof fn lemma_first_prompt_unique(bytes: Seq<u8>, a: int, b: int)
    requires
        first_prompt(bytes, a),
        first_prompt(bytes, b),
    ensures
        a == b,
{
}

/// The channel keeps the answer it has until an exchange ends with a new
/// one: no event that ends an exchange without an answer touches it, nor any
/// that leaves the exchange under way.
pub proof fn lemma_output_kept(channel: ChannelView, event: ChannelEventView)
    ensures
        match channel_step(channel, event).1 {
            ChannelStepView::Done(Ok(answer)) => channel_step(channel, event).0.output == answer,
            _ => channel_step(channel, event).0.output == channel.output,
        },
        channel_step(channel, event).1 is Done ==> channel_step(channel, event).0.exchange is Ready,
        channel_step(channel, event).0.timeouts == channel.timeouts,
{
}

/// A command sent while another is in flight is refused, and the exchange
/// under way goes on undisturbed. A command is never answered at once.
pub proof fn lemma_one_in_flight(channel: ChannelView, message: Seq<char>)
    ensures
        !(channel.exchange is Ready) ==> send_step(channel, message) == (
            channel,
            ChannelStepView::Done(Err(ChannelError::Busy)),
        ),
        channel.exchange is Ready ==> send_step(channel, message).0.exchange == (
            ExchangeView::Draining { request: wire_form(message) }
        ),
        send_step(channel, message).0.output == channel.output,
{
}

/// The phases follow each other in order. A command sent over a channel at
/// rest is written, unchanged, once the console has fallen silent; after the
/// write the answer is read; and what the console prints before its prompt is
/// the answer, which the channel then keeps.
pub proof fn lemma_exchange_in_order(
    channel: ChannelView,
    message: Seq<char>,
    answer: Seq<u8>,
    rest: Seq<u8>,
)
    requires
        channel.exchange is Ready,
        !answer.contains(PROMPT),
    ensures
        ({
            let (drained, first) = send_step(channel, message);
            let (writing, second) = channel_step(drained, ChannelEventView::Read(ReadEventView::Idle));
            let (capturing, third) = channel_step(writing, ChannelEventView::Written);
            let (ended, last) = channel_step(
                capturing,
                ChannelEventView::Read(ReadEventView::Data(answer.push(PROMPT) + rest)),
            );
            &&& first == (ChannelStepView::Read { timeout_ms: channel.timeouts.idle_read_ms })
            &&& second == (ChannelStepView::Write {
                bytes: wire_form(message),
                timeout_ms: channel.timeouts.write_ms,
            })
            &&& third == (ChannelStepView::Read { timeout_ms: channel.timeouts.idle_read_ms })
            &&& last == ChannelStepView::Done(Ok(utf8_lossy(answer)))
            &&& ended == (ChannelView {
                output: utf8_lossy(answer),
                exchange: ExchangeView::Ready,
                timeouts: channel.timeouts,
            })
        }),
{
    let bytes = answer.push(PROMPT) + rest;
    let at = answer.len() as int;
    assert(first_prompt(bytes, at));
    lemma_first_prompt_unique(bytes, at, choose|k: int| first_prompt(bytes, k));
    assert(bytes.take(at) =~= answer);
}

/// While the console prints no prompt, all that it prints is captured.
pub proof fn lemma_capture_grows(channel: ChannelView, chunks: Seq<Seq<u8>>)
    requires
        channel.exchange is Capturing,
        forall|i: int| 0 <= i < chunks.len() ==> !(#[trigger] chunks[i]).contains(PROMPT),
    ensures
        drive(channel, data_events(chunks)).0 == (ChannelView {
            exchange: ExchangeView::Capturing {
                captured: channel.exchange->captured + chained(chunks),
            },
            ..channel
        }),
    decreases chunks.len(),
{
    let captured = channel.exchange->captured;
    if chunks.len() > 0 {
        let front = chunks.drop_last();
        let chunk = chunks.last();
        lemma_capture_grows(channel, front);
        assert(data_events(chunks).drop_last() =~= data_events(front));
        assert(forall|at: int| !first_prompt(chunk, at));
        assert((captured + chained(front)) + chunk =~= captured + chained(chunks));
    }
}

/// A console that never prints its prompt does not hold an exchange up: as
/// soon as a read brings nothing, the exchange ends in success with all that
/// was captured until then.
pub proof fn lemma_silence_ends_capture(channel: ChannelView, chunks: Seq<Seq<u8>>)
    requires
        channel.exchange is Capturing,
        forall|i: int| 0 <= i < chunks.len() ==> !(#[trigger] chunks[i]).contains(PROMPT),
    ensures
        drive(
            channel,
            data_events(chunks).push(ChannelEventView::Read(ReadEventView::Idle)),
        ) == concluded(channel, utf8_lossy(channel.exchange->captured + chained(chunks))),
{
    lemma_capture_grows(channel, chunks);
    let events = data_events(chunks).push(ChannelEventView::Read(ReadEventView::Idle));
    assert(events.drop_last() =~= data_events(chunks));
}

/// What is sent for a message.
pub fn format_command(message: &str) -> (r: String)
    ensures
        r@ == command_text(message@),
{
    if !message.is_empty() && message.get_char(0) == '/' {
        message.to_owned()
    } else {
        let mut out = String::from_str("say ");
        out.append(message);
        out
    }
}

fn prompt_position(bytes: &Vec<u8>) -> (r: Option<usize>)
    ensures
        match r {
            Some(at) => first_prompt(bytes@, at as int),
            None => forall|k: int| 0 <= k < bytes.len() ==> bytes[k] != PROMPT,
        },
{
    let mut at: usize = 0;
    while at < bytes.len()
        invariant
            at <= bytes.len(),
            forall|k: int| 0 <= k < at ==> bytes[k] != PROMPT,
        decreases bytes.len() - at,
    {
        if bytes[at] == PROMPT {
            return Some(at);
        }
        at += 1;
    }
    None
}

fn append_bytes(onto: &mut Vec<u8>, bytes: &Vec<u8>, count: usize)
    requires
        count <= bytes.len(),
    ensures
        final(onto)@ == old(onto)@ + bytes@.take(count as int),
{
    let mut at: usize = 0;
    while at < count
        invariant
            at <= count <= bytes.len(),
            onto@ == old(onto)@ + bytes@.take(at as int),
        decreases count - at,
    {
        onto.push(bytes[at]);
        at += 1;
    }
}

/// The command channel.
pub struct CommandChannel {
    output: String,
    exchange: Exchange,
    timeouts: Timeouts,
}

impl View for CommandChannel {
    type V = ChannelView;

    closed spec fn view(&self) -> ChannelView {
        ChannelView { output: self.output@, exchange: self.exchange@, timeouts: self.timeouts }
    }
}

impl CommandChannel {
    /// A channel over which nothing has been sent.
    pub fn new(timeouts: Timeouts) -> (r: CommandChannel)
        ensures
            r@ == (ChannelView { output: Seq::empty(), exchange: ExchangeView::Ready, timeouts }),
    {
        CommandChannel { output: String::new(), exchange: Exchange::Ready, timeouts }
    }

    /// The answer to the last command that got one; empty before the first.
    pub fn output(&self) -> (r: String)
        ensures
            r@ == self@.output,
    {
        self.output.clone()
    }

    fn pending(&self) -> (step: ChannelStep)
        ensures
            step@ == pending_step(self@),
    {
        match &self.exchange {
            Exchange::Ready => ChannelStep::Idle,
            Exchange::Draining { .. } => ChannelStep::Read { timeout_ms: self.timeouts.idle_read_ms },
            Exchange::Writing { request } => ChannelStep::Write {
                bytes: request.clone(),
                timeout_ms: self.timeouts.write_ms,
            },
            Exchange::Capturing { .. } => ChannelStep::Read { timeout_ms: self.timeouts.idle_read_ms },
        }
    }

    fn enter(&mut self, exchange: Exchange) -> (step: ChannelStep)
        ensures
            (final(self)@, step@) == moved(old(self)@, exchange@),
    {
        self.exchange = exchange;
        self.pending()
    }

    fn fail(&mut self, error: ChannelError) -> (step: ChannelStep)
        ensures
            (final(self)@, step@) == broken(old(self)@, error),
    {
        self.exchange = Exchange::Ready;
        ChannelStep::Done(Err(error))
    }

    /// Ends the exchange with `answer`, which the channel keeps from now on.
    pub fn conclude(&mut self, answer: String) -> (step: ChannelStep)
        ensures
            (final(self)@, step@) == concluded(old(self)@, answer@),
    {
        self.output = answer.clone();
        self.exchange = Exchange::Ready;
        ChannelStep::Done(Ok(answer))
    }

    /// Sends `message`: as it is where it begins with a slash, else as a
    /// `say` command. Where no exchange is under way one begins, and the
    /// first read of the draining is asked for; else the message is refused
    /// with `Busy` and nothing changes.
    pub fn send(&mut self, message: &str) -> (step: ChannelStep)
        ensures
            (final(self)@, step@) == send_step(old(self)@, message@),
    {
        match &self.exchange {
            Exchange::Ready => {
                let mut line = format_command(message);
                line.append("\n");
                let request = line.as_str().as_bytes_vec();
                self.enter(Exchange::Draining { request })
            },
            _ => ChannelStep::Done(Err(ChannelError::Busy)),
        }
    }

    /// Goes on with the exchange: takes what the last read or write came to,
    /// and says what is needed next.
    pub fn on_event(&mut self, event: ChannelEvent) -> (step: ChannelStep)
        ensures
            (final(self)@, step@) == channel_step(old(self)@, event@),
    {
        let mut exchange = Exchange::Ready;
        std::mem::swap(&mut self.exchange, &mut exchange);
        match (exchange, event) {
            (Exchange::Draining { request }, ChannelEvent::Read(read)) => match read {
                ReadEvent::Data(_) => self.enter(Exchange::Draining { request }),
                ReadEvent::Idle => self.enter(Exchange::Writing { request }),
                ReadEvent::Closed => self.fail(ChannelError::ChannelClosed),
                ReadEvent::Failed => self.fail(ChannelError::ChannelClosed),
            },
            (Exchange::Writing { .. }, ChannelEvent::Written) => self.enter(
                Exchange::Capturing { captured: Vec::new() },
            ),
            (Exchange::Writing { .. }, ChannelEvent::WriteTimedOut) => self.fail(
                ChannelError::WriteTimeout,
            ),
            (Exchange::Writing { .. }, ChannelEvent::WriteFailed) => self.fail(
                ChannelError::ChannelClosed,
            ),
            (Exchange::Capturing { captured }, ChannelEvent::Read(read)) => match read {
                ReadEvent::Data(bytes) => {
                    let mut captured = captured;
                    match prompt_position(&bytes) {
                        Some(at) => {
                            proof {
                                let chosen = choose|k: int| first_prompt(bytes@, k);
                                lemma_first_prompt_unique(bytes@, chosen, at as int);
                            }
                            append_bytes(&mut captured, &bytes, at);
                            let answer = decode_lossy(captured.as_slice());
                            self.conclude(answer)
                        },
                        None => {
                            append_bytes(&mut captured, &bytes, bytes.len());
                            assert(bytes@.take(bytes.len() as int) =~= bytes@);
                            self.enter(Exchange::Capturing { captured })
                        },
                    }
                },
                ReadEvent::Idle => {
                    let answer = decode_lossy(captured.as_slice());
                    self.conclude(answer)
                },
                ReadEvent::Closed => self.fail(ChannelError::ChannelClosed),
                ReadEvent::Failed => self.fail(ChannelError::ChannelClosed),
            },
            (exchange, _) => self.enter(exchange),
        }
    }
}

} // verus!
