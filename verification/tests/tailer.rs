use mc_console::log_manager::ProcessError;
use mc_console::roster::Roster;
use mc_console::tailer::process_log;
use mc_console::tailer::record_event;
use mc_console::tailer::ProcessStep;
use mc_console::tailer::ReadEvent;
use mc_console::tailer::StreamTailer;
use mc_console::classifier::ClassifiedRecord;

fn texts(list: &[&str]) -> Vec<String> {
    list.iter().map(|t| t.to_string()).collect()
}

fn data(text: &str) -> ReadEvent {
    ReadEvent::Data(text.as_bytes().to_vec())
}

fn feed_lines(tailer: &mut StreamTailer, lines: &[&str]) {
    for line in lines {
        let mut bytes = line.as_bytes().to_vec();
        bytes.push(b'\n');
        assert_eq!(tailer.on_read(ReadEvent::Data(bytes)), ProcessStep::Read { timeout_ms: 10 });
    }
}

#[test]
fn refresh_begins_with_a_read() {
    let tailer = StreamTailer::new(25);
    assert_eq!(tailer.begin(), ProcessStep::Read { timeout_ms: 25 });
}

#[test]
fn refresh_of_a_silent_source_succeeds() {
    let mut tailer = StreamTailer::new(10);
    assert_eq!(tailer.on_read(ReadEvent::Idle), ProcessStep::Done(Ok(())));
    assert!(tailer.logs().is_empty());
    assert!(tailer.chat().is_empty());
    assert!(tailer.players().is_empty());
}

#[test]
fn closed_source_is_reported() {
    let mut tailer = StreamTailer::new(10);
    assert_eq!(
        tailer.on_read(ReadEvent::Closed),
        ProcessStep::Done(Err(ProcessError::StreamClosed))
    );
}

#[test]
fn failed_read_is_reported() {
    let mut tailer = StreamTailer::new(10);
    tailer.on_read(data("half a li"));
    assert_eq!(tailer.on_read(ReadEvent::Failed), ProcessStep::Done(Err(ProcessError::IoError)));
    assert!(tailer.logs().is_empty());
}

#[test]
fn join_chat_leave_in_order() {
    let mut tailer = StreamTailer::new(10);
    feed_lines(
        &mut tailer,
        &[
            "[t1] [Server thread/INFO]: Alice joined the game",
            "[t1] [Server thread/INFO]: <Alice> hi",
            "[t2] [Server thread/INFO]: Alice left the game",
        ],
    );
    assert!(tailer.players().is_empty());
    assert_eq!(
        tailer.chat(),
        texts(&["Alice joined the game", "<Alice>: hi", "Alice left the game"])
    );
    assert!(tailer.logs().is_empty());
}

#[test]
fn bare_chat_line_goes_to_the_log() {
    let mut tailer = StreamTailer::new(10);
    feed_lines(
        &mut tailer,
        &[
            "[t1] [Server thread/INFO]: Alice joined the game",
            "<Alice> hi",
            "[t2] [Server thread/INFO]: Alice left the game",
        ],
    );
    assert!(tailer.players().is_empty());
    assert_eq!(tailer.chat(), texts(&["Alice joined the game", "Alice left the game"]));
    assert_eq!(tailer.logs(), texts(&["<Alice> hi"]));
}

#[test]
fn replay_gives_the_same() {
    let lines = [
        "Starting server",
        "[t] [Server thread/INFO]: Alice joined the game",
        "[t] [Server thread/INFO]: Bob joined the game",
        "[t] [Server thread/INFO]: [Bob] hello",
        "[t] [Server thread/INFO]: Thread RCON Client started",
        "[t] [Server thread/INFO]: Alice left the game",
        "[t] [main/INFO]: saved",
    ];
    let mut first = StreamTailer::new(10);
    feed_lines(&mut first, &lines);
    let mut second = StreamTailer::new(10);
    feed_lines(&mut second, &lines);
    assert_eq!(first.logs(), second.logs());
    assert_eq!(first.chat(), second.chat());
    assert_eq!(first.players(), second.players());
    assert_eq!(first.logs(), texts(&["Starting server", "[t] [main/INFO]: saved"]));
    assert_eq!(first.chat(), texts(&["Alice joined the game", "Bob joined the game", "[Bob]: hello", "Alice left the game"]));
    assert_eq!(first.players(), texts(&["Bob"]));
}

#[test]
fn where_a_read_ends_does_not_matter() {
    let whole = "first line\r\n[t] [Server thread/INFO]: Alice joined the game\n\n[t] [x]: <Alice> hi\nrest";
    let mut at_once = StreamTailer::new(10);
    at_once.on_read(data(whole));
    let mut by_byte = StreamTailer::new(10);
    for byte in whole.as_bytes() {
        by_byte.on_read(ReadEvent::Data(vec![*byte]));
    }
    assert_eq!(at_once.logs(), texts(&["first line"]));
    assert_eq!(at_once.chat(), texts(&["Alice joined the game", "<Alice>: hi"]));
    assert_eq!(at_once.players(), texts(&["Alice"]));
    assert_eq!(at_once.logs(), by_byte.logs());
    assert_eq!(at_once.chat(), by_byte.chat());
    assert_eq!(at_once.players(), by_byte.players());
}

#[test]
fn begun_line_waits_for_its_end() {
    let mut tailer = StreamTailer::new(10);
    tailer.on_read(data("begun"));
    assert_eq!(tailer.on_read(ReadEvent::Idle), ProcessStep::Done(Ok(())));
    assert!(tailer.logs().is_empty());
    tailer.on_read(data(" and ended\n"));
    assert_eq!(tailer.logs(), texts(&["begun and ended"]));
}

#[test]
fn end_of_source_ends_the_begun_line() {
    let mut tailer = StreamTailer::new(10);
    tailer.on_read(data("last words\r"));
    assert_eq!(
        tailer.on_read(ReadEvent::Closed),
        ProcessStep::Done(Err(ProcessError::StreamClosed))
    );
    assert_eq!(tailer.logs(), texts(&["last words"]));
}

#[test]
fn empty_lines_leave_nothing() {
    let mut tailer = StreamTailer::new(10);
    tailer.on_read(data("\n\r\n\n"));
    assert!(tailer.logs().is_empty());
    tailer.on_read(data("\r\r\n"));
    assert_eq!(tailer.logs(), texts(&["\r"]));
}

#[test]
fn noise_leaves_no_trace() {
    let mut tailer = StreamTailer::new(10);
    feed_lines(&mut tailer, &["[t] [Server thread/INFO]: Thread RCON Client /127.0.0.1 started"]);
    assert!(tailer.logs().is_empty());
    assert!(tailer.chat().is_empty());
    assert!(tailer.players().is_empty());
}

#[test]
fn malformed_bytes_are_replaced() {
    let mut tailer = StreamTailer::new(10);
    tailer.on_read(ReadEvent::Data(vec![b'a', 0xff, b'b', b'\n']));
    assert_eq!(tailer.logs(), texts(&["a\u{fffd}b"]));
}

#[test]
fn duplicate_join_is_passed_over() {
    let mut tailer = StreamTailer::new(10);
    feed_lines(
        &mut tailer,
        &[
            "[t] [Server thread/INFO]: Alice joined the game",
            "[t] [Server thread/INFO]: Alice joined the game",
            "[t] [Server thread/INFO]: Ghost left the game",
        ],
    );
    assert_eq!(tailer.players(), texts(&["Alice"]));
    assert_eq!(tailer.chat(), texts(&["Alice joined the game"]));
}

#[test]
fn process_log_enters_one_line() {
    let mut players = Roster::new();
    let mut chat: Vec<String> = vec![];
    let mut logs: Vec<String> = vec![];
    process_log("plain", &mut players, &mut chat, &mut logs);
    process_log("[t] [Server thread/INFO]: Alice joined the game", &mut players, &mut chat, &mut logs);
    process_log("[t] [Server thread/INFO]: <Alice> hello", &mut players, &mut chat, &mut logs);
    assert_eq!(logs, texts(&["plain"]));
    assert_eq!(chat, texts(&["Alice joined the game", "<Alice>: hello"]));
    assert_eq!(players.names(), texts(&["Alice"]));
}

#[test]
fn record_event_enters_one_record() {
    let mut players = Roster::new();
    let mut chat: Vec<String> = vec![];
    let mut logs: Vec<String> = vec![];
    record_event(ClassifiedRecord::Noise, &mut players, &mut chat, &mut logs);
    record_event(
        ClassifiedRecord::Chat {
            open: "[".to_string(),
            speaker: "Bob".to_string(),
            close: "]".to_string(),
            body: "yo".to_string(),
        },
        &mut players,
        &mut chat,
        &mut logs,
    );
    record_event(ClassifiedRecord::Generic { text: "g".to_string() }, &mut players, &mut chat, &mut logs);
    assert_eq!(logs, texts(&["g"]));
    assert_eq!(chat, texts(&["[Bob]: yo"]));
    assert_eq!(players.len(), 0);
}
