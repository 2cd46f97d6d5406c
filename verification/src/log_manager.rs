//! Log managers: one for each kind of server that can be watched, behind one
//! interface.
//!
//! A manager owns what has been gathered about its server, and decides. It
//! performs no I/O: a refresh and the sending of a command are carried out in
//! steps, by a driver that does the reads and writes the manager asks for and
//! reports what came of each.

use crate::channel::channel_step;
use crate::channel::send_step;
use crate::channel::ChannelEvent;
use crate::channel::ChannelEventView;
use crate::channel::ChannelStep;
use crate::channel::ChannelStepView;
use crate::channel::ChannelView;
use crate::channel::CommandChannel;
use crate::channel::ExchangeView;
use crate::channel::Timeouts;
use crate::channel::IDLE_READ_MS;
use crate::channel::WRITE_MS;
use crate::roster::distinct;
use crate::tailer::fresh;
use crate::tailer::lemma_tail_step_distinct;
use crate::tailer::tail_step;
use crate::tailer::ProcessStep;
use crate::tailer::ReadEvent;
use crate::tailer::ReadEventView;
use crate::tailer::StreamTailer;
use crate::tailer::TailerView;
use crate::text::same_text;
use vstd::prelude::*;
use vstd::string::StringExecFns;

verus! {

/// The kind of server that `ItzgLogManager` watches.
pub const ITZG_IMAGE: &'static str = "itzg/minecraft-server";

/// The kind that stands for no server at all.
pub const DEVELOPMENT_IMAGE: &'static str = "development";

/// Who is connected to the server that is not there.
pub const DEVELOPMENT_PLAYER: &'static str = "Encursed";

/// Why no log manager could be made.
#[derive(Debug, Clone, Copy, PartialEq, Eq)]
pub enum NewLogManagerError {
    /// No manager knows how to watch this kind of server.
    UnsupportedMinecraftContainer,
}

/// Why a refresh ended without having caught up.
#[derive(Debug, Clone, Copy, PartialEq, Eq)]
pub enum ProcessError {
    /// The manager has no log source to read from.
    UninitializedStruct,
    /// A read from the log source failed.
    IoError,
    /// The log source has ended: the server is gone, or was restarted.
    StreamClosed,
}

/// What a consumer can see of a manager.
pub struct Snapshot {
    pub logs: Seq<Seq<char>>,
    pub chat: Seq<Seq<char>>,
    pub players: Seq<Seq<char>>,
    pub command_output: Seq<char>,
}

/// What the driver of a manager has to attach to.
#[derive(Debug, PartialEq, Eq)]
pub enum Wiring {
    /// Nothing: the manager asks for no read and no write.
    InMemory,
    /// The log and the console of the container of this name.
    Container { name: String },
}

pub enum WiringView {
    InMemory,
    Container { name: Seq<char> },
}

impl View for Wiring {
    type V = WiringView;

    open spec fn view(&self) -> WiringView {
        match self {
            Wiring::InMemory => WiringView::InMemory,
            Wiring::Container { name } => WiringView::Container { name: name@ },
        }
    }
}

/// What the manager of a container holds.
pub struct ItzgView {
    pub container_name: Seq<char>,
    pub tailer: TailerView,
    pub channel: ChannelView,
}

/// What a log manager is, as far as its behaviour goes: the manager that
/// watches no server, with the messages that were sent through it, or the
/// manager of a container, with all that it holds.
pub enum ManagerModel {
    Development { sent: Seq<Seq<char>> },
    Container { manager: ItzgView },
}

/// The manager of a container at the start: nothing read, nothing sent.
pub open spec fn itzg_fresh(container_name: Seq<char>, timeouts: Timeouts) -> ItzgView {
    ItzgView {
        container_name,
        tailer: fresh(timeouts.idle_read_ms),
        channel: ChannelView { output: Seq::empty(), exchange: ExchangeView::Ready, timeouts },
    }
}

/// What can be seen of a manager. The manager that watches no server shows an
/// empty log, an empty chat and one participant, whatever was sent through
/// it.
pub open spec fn snapshot_of(model: ManagerModel) -> Snapshot {
    match model {
        ManagerModel::Development { .. } => Snapshot {
            logs: Seq::empty(),
            chat: Seq::empty(),
            players: seq![DEVELOPMENT_PLAYER@],
            command_output: Seq::empty(),
        },
        ManagerModel::Container { manager } => Snapshot {
            logs: manager.tailer.intake.ledger.logs,
            chat: manager.tailer.intake.ledger.chat,
            players: manager.tailer.intake.ledger.players,
            command_output: manager.channel.output,
        },
    }
}

/// What the driver of a manager has to attach to.
pub open spec fn wiring_of(model: ManagerModel) -> WiringView {
    match model {
        ManagerModel::Development { .. } => WiringView::InMemory,
        ManagerModel::Container { manager } => WiringView::Container { name: manager.container_name },
    }
}

/// How a refresh begins: with the first read of the log, or, where there is
/// no log, with its end.
pub open spec fn refresh_begin(model: ManagerModel) -> ProcessStep {
    match model {
        ManagerModel::Development { .. } => ProcessStep::Done(Ok(())),
        ManagerModel::Container { manager } => ProcessStep::Read {
            timeout_ms: manager.tailer.idle_read_ms,
        },
    }
}

/// One step of a refresh: the manager after a read, and what it needs next.
///
/// The manager of a container hands the read to its tailer. The manager that
/// watches no server has no source that a read could have come from:
/// whatever a read is said to have brought or met, it refuses with
/// `UninitializedStruct`, and only a read that brought nothing is in order.
pub open spec fn refresh_step(model: ManagerModel, event: ReadEventView) -> (ManagerModel, ProcessStep) {
    match model {
        ManagerModel::Development { .. } => (
            model,
            if event is Idle {
                ProcessStep::Done(Ok(()))
            } else {
                ProcessStep::Done(Err(ProcessError::UninitializedStruct))
            },
        ),
        ManagerModel::Container { manager } => {
            let (tailer, step) = tail_step(manager.tailer, event);
            (ManagerModel::Container { manager: ItzgView { tailer, ..manager } }, step)
        },
    }
}

/// How the sending of a message begins. The manager of a container hands the
/// message to its channel. The manager that watches no server keeps the
/// message and answers at once, with nothing.
pub open spec fn sending_begin(model: ManagerModel, message: Seq<char>) -> (
    ManagerModel,
    ChannelStepView,
) {
    match model {
        ManagerModel::Development { sent } => (
            ManagerModel::Development { sent: sent.push(message) },
            ChannelStepView::Done(Ok(Seq::empty())),
        ),
        ManagerModel::Container { manager } => {
            let (channel, step) = send_step(manager.channel, message);
            (ManagerModel::Container { manager: ItzgView { channel, ..manager } }, step)
        },
    }
}

/// One step of the sending: the manager after an event, and what it needs
/// next. With the manager that watches no server, no exchange is ever under
/// way.
pub open spec fn sending_step(model: ManagerModel, event: ChannelEventView) -> (
    ManagerModel,
    ChannelStepView,
) {
    match model {
        ManagerModel::Development { .. } => (model, ChannelStepView::Idle),
        ManagerModel::Container { manager } => {
            let (channel, step) = channel_step(manager.channel, event);
            (ManagerModel::Container { manager: ItzgView { channel, ..manager } }, step)
        },
    }
}

/// A refresh touches neither the answer to the last command nor the wiring,
/// and puts no name on the roster twice. A read that brought nothing ends it
/// in success and changes nothing, as a failed read changes nothing. And a
/// refresh fails only for the reason that its error names: the end of the
/// source, a failed read, or a read reported to a manager that has no
/// source.
pub proof fn lemma_refresh(model: ManagerModel, event: ReadEventView)
    ensures
        snapshot_of(refresh_step(model, event).0).command_output == snapshot_of(model).command_output,
        wiring_of(refresh_step(model, event).0) == wiring_of(model),
        event is Idle ==> refresh_step(model, event) == (model, ProcessStep::Done(Ok(()))),
        event is Failed ==> refresh_step(model, event).0 == model,
        refresh_step(model, event).1 matches ProcessStep::Done(Err(error)) ==> {
            ||| error == ProcessError::StreamClosed && event is Closed && model is Container
            ||| error == ProcessError::IoError && event is Failed && model is Container
            ||| error == ProcessError::UninitializedStruct && !(event is Idle) && model is Development
        },
        !(refresh_begin(model) matches ProcessStep::Done(Err(_))),
        distinct(snapshot_of(model).players) ==> distinct(
            snapshot_of(refresh_step(model, event).0).players,
        ),
{
    match model {
        ManagerModel::Container { manager } => {
            if distinct(manager.tailer.intake.ledger.players) {
                lemma_tail_step_distinct(manager.tailer, event);
            }
        },
        _ => {},
    }
}

/// The sending of a message touches neither the log, the chat, the roster
/// nor the wiring, and the answer to the last command changes only when an
/// exchange ends with a new one.
pub proof fn lemma_sending(model: ManagerModel, message: Seq<char>, event: ChannelEventView)
    ensures
        sending_keeps(model, sending_begin(model, message)),
        sending_keeps(model, sending_step(model, event)),
{
}

/// What holds of a manager before and after a step of sending.
pub open spec fn sending_keeps(before: ManagerModel, step: (ManagerModel, ChannelStepView)) -> bool {
    let after = step.0;
    &&& snapshot_of(after).logs == snapshot_of(before).logs
    &&& snapshot_of(after).chat == snapshot_of(before).chat
    &&& snapshot_of(after).players == snapshot_of(before).players
    &&& wiring_of(after) == wiring_of(before)
    &&& match step.1 {
        ChannelStepView::Done(Ok(answer)) => snapshot_of(after).command_output == answer,
        _ => snapshot_of(after).command_output == snapshot_of(before).command_output,
    }
}

/// The interface of every log manager. What a manager does at each step is
/// what its model does.
pub trait LogManager {
    spec fn model(&self) -> ManagerModel;

    /// What the driver has to attach to.
    fn wiring(&self) -> (r: Wiring)
        ensures
            r@ == wiring_of(self.model()),
    ;

    /// Begins a refresh.
    fn process(&mut self) -> (step: ProcessStep)
        ensures
            final(self).model() == old(self).model(),
            step == refresh_begin(old(self).model()),
    ;

    /// Goes on with a refresh, given what the read that was asked for came
    /// to.
    fn process_event(&mut self, event: ReadEvent) -> (step: ProcessStep)
        ensures
            (final(self).model(), step) == refresh_step(old(self).model(), event@),
    ;

    /// The chat, oldest entry first.
    fn get_chat(&self) -> (r: Vec<String>)
        ensures
            r.deep_view() == snapshot_of(self.model()).chat,
    ;

    /// The log, oldest line first.
    fn get_logs(&self) -> (r: Vec<String>)
        ensures
            r.deep_view() == snapshot_of(self.model()).logs,
    ;

    /// Who is connected.
    fn get_players(&self) -> (r: Vec<String>)
        ensures
            r.deep_view() == snapshot_of(self.model()).players,
    ;

    /// The answer to the last command that got one.
    fn get_command_output(&self) -> (r: String)
        ensures
            r@ == snapshot_of(self.model()).command_output,
    ;

    /// Begins the sending of a message.
    fn send_message(&mut self, message: &str) -> (step: ChannelStep)
        ensures
            (final(self).model(), step@) == sending_begin(old(self).model(), message@),
    ;

    /// Goes on with the sending, given what the read or write that was asked
    /// for came to.
    fn channel_event(&mut self, event: ChannelEvent) -> (step: ChannelStep)
        ensures
            (final(self).model(), step@) == sending_step(old(self).model(), event@),
    ;
}

/// A manager that watches no server. It shows an empty log, an empty chat and
/// one participant, whatever is sent through it.
#[allow(dead_code)]
pub struct DebugLogManager {
    logs: Vec<String>,
    chat: Vec<String>,
    players: Vec<String>,
}

impl DebugLogManager {
    /// The messages that were sent through this manager, oldest first.
    pub closed spec fn sent(&self) -> Seq<Seq<char>> {
        self.chat.deep_view()
    }

    pub fn new() -> (r: DebugLogManager)
        ensures
            r.model() == (ManagerModel::Development { sent: Seq::empty() }),
    {
        let r = DebugLogManager { logs: Vec::new(), chat: Vec::new(), players: Vec::new() };
        assert(r.chat.deep_view() =~= Seq::<Seq<char>>::empty());
        r
    }
}

impl LogManager for DebugLogManager {
    open spec fn model(&self) -> ManagerModel {
        ManagerModel::Development { sent: self.sent() }
    }

    fn wiring(&self) -> (r: Wiring) {
        Wiring::InMemory
    }

    fn process(&mut self) -> (step: ProcessStep) {
        ProcessStep::Done(Ok(()))
    }

    fn process_event(&mut self, event: ReadEvent) -> (step: ProcessStep) {
        match event {
            ReadEvent::Idle => ProcessStep::Done(Ok(())),
            _ => ProcessStep::Done(Err(ProcessError::UninitializedStruct)),
        }
    }

    fn get_chat(&self) -> (r: Vec<String>) {
        Vec::new()
    }

    fn get_logs(&self) -> (r: Vec<String>) {
        Vec::new()
    }

    fn get_players(&self) -> (r: Vec<String>) {
        let mut r: Vec<String> = Vec::new();
        r.push(String::from_str(DEVELOPMENT_PLAYER));
        r
    }

    fn get_command_output(&self) -> (r: String) {
        String::new()
    }

    fn send_message(&mut self, message: &str) -> (step: ChannelStep) {
        self.chat.push(message.to_owned());
        assert(self.chat.deep_view() =~= old(self).chat.deep_view().push(message@));
        ChannelStep::Done(Ok(String::new()))
    }

    fn channel_event(&mut self, event: ChannelEvent) -> (step: ChannelStep) {
        ChannelStep::Idle
    }
}

/// The manager of a server that runs in a container: it tails the
/// container's log and talks to the console inside it. The tailer is opened
/// once and moves forward only; each refresh takes in what has arrived since
/// the last.
pub struct ItzgLogManager {
    container_name: String,
    tailer: StreamTailer,
    channel: CommandChannel,
}

impl View for ItzgLogManager {
    type V = ItzgView;

    closed spec fn view(&self) -> ItzgView {
        ItzgView {
            container_name: self.container_name@,
            tailer: self.tailer@,
            channel: self.channel@,
        }
    }
}

impl ItzgLogManager {
    /// A manager for the container `container_name`, with the usual timeouts.
    pub fn new(container_name: &str) -> (r: ItzgLogManager)
        ensures
            r@ == itzg_fresh(
                container_name@,
                Timeouts { idle_read_ms: IDLE_READ_MS, write_ms: WRITE_MS },
            ),
    {
        ItzgLogManager::with_timeouts(container_name, Timeouts::default())
    }

    /// A manager for the container `container_name` whose reads and writes
    /// wait as long as `timeouts` say.
    pub fn with_timeouts(container_name: &str, timeouts: Timeouts) -> (r: ItzgLogManager)
        ensures
            r@ == itzg_fresh(container_name@, timeouts),
    {
        ItzgLogManager {
            container_name: container_name.to_owned(),
            tailer: StreamTailer::new(timeouts.idle_read_ms),
            channel: CommandChannel::new(timeouts),
        }
    }
}

impl LogManager for ItzgLogManager {
    open spec fn model(&self) -> ManagerModel {
        ManagerModel::Container { manager: self@ }
    }

    fn wiring(&self) -> (r: Wiring) {
        Wiring::Container { name: self.container_name.clone() }
    }

    fn process(&mut self) -> (step: ProcessStep) {
        self.tailer.begin()
    }

    fn process_event(&mut self, event: ReadEvent) -> (step: ProcessStep) {
        self.tailer.on_read(event)
    }

    fn get_chat(&self) -> (r: Vec<String>) {
        self.tailer.chat()
    }

    fn get_logs(&self) -> (r: Vec<String>) {
        self.tailer.logs()
    }

    fn get_players(&self) -> (r: Vec<String>) {
        self.tailer.players()
    }

    fn get_command_output(&self) -> (r: String) {
        self.channel.output()
    }

    fn send_message(&mut self, message: &str) -> (step: ChannelStep) {
        self.channel.send(message)
    }

    fn channel_event(&mut self, event: ChannelEvent) -> (step: ChannelStep) {
        self.channel.on_event(event)
    }
}

/// Which manager watches a kind of server: a fresh one for the container, a
/// fresh one for no server, or none.
pub open spec fn manager_for(image_name: Seq<char>, container_name: Seq<char>) -> Result<
    ManagerModel,
    NewLogManagerError,
> {
    if image_name == ITZG_IMAGE@ {
        Ok(
            ManagerModel::Container {
                manager: itzg_fresh(
                    container_name,
                    Timeouts { idle_read_ms: IDLE_READ_MS, write_ms: WRITE_MS },
                ),
            },
        )
    } else if image_name == DEVELOPMENT_IMAGE@ {
        Ok(ManagerModel::Development { sent: Seq::empty() })
    } else {
        Err(NewLogManagerError::UnsupportedMinecraftContainer)
    }
}

/// The manager for a kind of server, by the name of its image: the container
/// manager for `itzg/minecraft-server`, the manager that watches nothing for
/// `development`, and none for any other.
pub fn new(image_name: &str, container_name: &str) -> (r: Result<Box<dyn LogManager>, NewLogManagerError>)
    ensures
        match r {
            Ok(manager) => manager.model() == manager_for(image_name@, container_name@)->Ok_0,
            Err(error) => manager_for(image_name@, container_name@) == Err::<ManagerModel, _>(error),
        },
        manager_for(image_name@, container_name@) is Ok <==> r is Ok,
{
    if same_text(image_name, ITZG_IMAGE) {
        Ok(Box::new(ItzgLogManager::new(container_name)))
    } else if same_text(image_name, DEVELOPMENT_IMAGE) {
        Ok(Box::new(DebugLogManager::new()))
    } else {
        Err(NewLogManagerError::UnsupportedMinecraftContainer)
    }
}

} // verus!
