use mc_console::channel::format_command;
use mc_console::channel::ChannelError;
use mc_console::channel::ChannelEvent;
use mc_console::channel::ChannelStep;
use mc_console::channel::CommandChannel;
use mc_console::channel::Timeouts;
use mc_console::tailer::ReadEvent;

fn channel() -> CommandChannel {
    CommandChannel::new(Timeouts::default())
}

fn read(text: &str) -> ChannelEvent {
    ChannelEvent::Read(ReadEvent::Data(text.as_bytes().to_vec()))
}

fn idle() -> ChannelEvent {
    ChannelEvent::Read(ReadEvent::Idle)
}

fn capturing(message: &str) -> CommandChannel {
    let mut ch = channel();
    ch.send(message);
    ch.on_event(idle());
    assert_eq!(ch.on_event(ChannelEvent::Written), ChannelStep::Read { timeout_ms: 10 });
    ch
}

#[test]
fn default_timeouts() {
    assert_eq!(Timeouts::default(), Timeouts { idle_read_ms: 10, write_ms: 1000 });
}

#[test]
fn free_text_is_said() {
    assert_eq!(format_command("hello"), "say hello");
    assert_eq!(format_command(""), "say ");
    assert_eq!(format_command("a /b"), "say a /b");
}

#[test]
fn commands_go_as_they_are() {
    assert_eq!(format_command("/list"), "/list");
    assert_eq!(format_command("/"), "/");
}

#[test]
fn exchange_runs_in_order() {
    let mut ch = channel();
    assert_eq!(ch.send("hello"), ChannelStep::Read { timeout_ms: 10 });
    assert_eq!(ch.on_event(read("stale output>")), ChannelStep::Read { timeout_ms: 10 });
    assert_eq!(
        ch.on_event(idle()),
        ChannelStep::Write { bytes: b"say hello\n".to_vec(), timeout_ms: 1000 }
    );
    assert_eq!(ch.on_event(ChannelEvent::Written), ChannelStep::Read { timeout_ms: 10 });
    assert_eq!(ch.on_event(read("There are 0 ")), ChannelStep::Read { timeout_ms: 10 });
    assert_eq!(
        ch.on_event(read("players\n> trailing")),
        ChannelStep::Done(Ok("There are 0 players\n".to_string()))
    );
    assert_eq!(ch.output(), "There are 0 players\n");
    assert_eq!(ch.on_event(idle()), ChannelStep::Idle);
}

#[test]
fn command_is_written_unmodified() {
    let mut ch = channel();
    ch.send("/list");
    assert_eq!(
        ch.on_event(idle()),
        ChannelStep::Write { bytes: b"/list\n".to_vec(), timeout_ms: 1000 }
    );
}

#[test]
fn timeouts_are_handed_to_the_driver() {
    let mut ch = CommandChannel::new(Timeouts { idle_read_ms: 7, write_ms: 70 });
    assert_eq!(ch.send("x"), ChannelStep::Read { timeout_ms: 7 });
    assert_eq!(ch.on_event(idle()), ChannelStep::Write { bytes: b"say x\n".to_vec(), timeout_ms: 70 });
}

#[test]
fn silence_ends_the_capture() {
    let mut ch = capturing("/list");
    ch.on_event(read("no prompt "));
    ch.on_event(read("ever"));
    assert_eq!(ch.on_event(idle()), ChannelStep::Done(Ok("no prompt ever".to_string())));
    assert_eq!(ch.output(), "no prompt ever");
}

#[test]
fn silence_at_once_gives_an_empty_answer() {
    let mut ch = capturing("/list");
    assert_eq!(ch.on_event(idle()), ChannelStep::Done(Ok(String::new())));
}

#[test]
fn malformed_answer_is_replaced() {
    let mut ch = capturing("/list");
    assert_eq!(
        ch.on_event(ChannelEvent::Read(ReadEvent::Data(vec![b'o', 0xc3, b'k', b'>']))),
        ChannelStep::Done(Ok("o\u{fffd}k".to_string()))
    );
}

#[test]
fn second_command_is_refused_while_one_is_in_flight() {
    let mut ch = channel();
    ch.send("first");
    assert_eq!(ch.send("second"), ChannelStep::Done(Err(ChannelError::Busy)));
    assert_eq!(
        ch.on_event(idle()),
        ChannelStep::Write { bytes: b"say first\n".to_vec(), timeout_ms: 1000 }
    );
    assert_eq!(ch.send("third"), ChannelStep::Done(Err(ChannelError::Busy)));
    ch.on_event(ChannelEvent::Written);
    assert_eq!(ch.send("fourth"), ChannelStep::Done(Err(ChannelError::Busy)));
    ch.on_event(idle());
    assert_eq!(ch.send("fifth"), ChannelStep::Read { timeout_ms: 10 });
}

#[test]
fn write_timeout_keeps_the_old_answer() {
    let mut ch = capturing("/list");
    ch.on_event(read("old>"));
    ch.send("next");
    ch.on_event(idle());
    assert_eq!(
        ch.on_event(ChannelEvent::WriteTimedOut),
        ChannelStep::Done(Err(ChannelError::WriteTimeout))
    );
    assert_eq!(ch.output(), "old");
    assert_eq!(ch.send("again"), ChannelStep::Read { timeout_ms: 10 });
}

#[test]
fn failed_write_closes() {
    let mut ch = channel();
    ch.send("x");
    ch.on_event(idle());
    assert_eq!(
        ch.on_event(ChannelEvent::WriteFailed),
        ChannelStep::Done(Err(ChannelError::ChannelClosed))
    );
}

#[test]
fn closed_console_keeps_the_old_answer() {
    let mut ch = capturing("/list");
    ch.on_event(read("old>"));
    ch.send("a");
    assert_eq!(
        ch.on_event(ChannelEvent::Read(ReadEvent::Closed)),
        ChannelStep::Done(Err(ChannelError::ChannelClosed))
    );
    assert_eq!(ch.output(), "old");
    let mut ch = capturing("b");
    ch.on_event(read("partial"));
    assert_eq!(
        ch.on_event(ChannelEvent::Read(ReadEvent::Failed)),
        ChannelStep::Done(Err(ChannelError::ChannelClosed))
    );
    assert_eq!(ch.output(), "");
}

#[test]
fn stray_events_change_nothing() {
    let mut ch = channel();
    assert_eq!(ch.on_event(ChannelEvent::Written), ChannelStep::Idle);
    ch.send("x");
    assert_eq!(ch.on_event(ChannelEvent::Written), ChannelStep::Read { timeout_ms: 10 });
    ch.on_event(idle());
    assert_eq!(
        ch.on_event(read("stray")),
        ChannelStep::Write { bytes: b"say x\n".to_vec(), timeout_ms: 1000 }
    );
    ch.on_event(ChannelEvent::Written);
    assert_eq!(ch.on_event(ChannelEvent::WriteFailed), ChannelStep::Read { timeout_ms: 10 });
    assert_eq!(ch.on_event(read("ok>")), ChannelStep::Done(Ok("ok".to_string())));
}

#[test]
fn conclude_keeps_the_answer() {
    let mut ch = channel();
    assert_eq!(ch.conclude("done".to_string()), ChannelStep::Done(Ok("done".to_string())));
    assert_eq!(ch.output(), "done");
}
