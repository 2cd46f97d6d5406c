use mc_console::classifier::classify;
use mc_console::classifier::classify_structured;
use mc_console::classifier::ClassifiedRecord;
use mc_console::classifier::RosterAction;

fn generic(text: &str) -> ClassifiedRecord {
    ClassifiedRecord::Generic { text: text.to_string() }
}

fn chat(open: &str, speaker: &str, close: &str, body: &str) -> ClassifiedRecord {
    ClassifiedRecord::Chat {
        open: open.to_string(),
        speaker: speaker.to_string(),
        close: close.to_string(),
        body: body.to_string(),
    }
}

fn groups(texts: &[&str]) -> Option<Vec<Option<String>>> {
    Some(texts.iter().map(|t| Some(t.to_string())).collect())
}

#[test]
fn join_line_is_a_roster_event() {
    assert_eq!(
        classify("[12:00:00] [Server thread/INFO]: Alice joined the game"),
        ClassifiedRecord::RosterEvent {
            name: "Alice".to_string(),
            action: RosterAction::Joined,
            text: "Alice joined the game".to_string(),
        }
    );
}

#[test]
fn leave_line_is_a_roster_event() {
    assert_eq!(
        classify("[12:00:01] [Server thread/INFO]: Bob left the game"),
        ClassifiedRecord::RosterEvent {
            name: "Bob".to_string(),
            action: RosterAction::Left,
            text: "Bob left the game".to_string(),
        }
    );
}

#[test]
fn unstructured_line_passes_through() {
    assert_eq!(classify("Starting minecraft server"), generic("Starting minecraft server"));
    assert_eq!(classify("<Alice> hello"), generic("<Alice> hello"));
    assert_eq!(classify("[12:00:00] no sender here"), generic("[12:00:00] no sender here"));
    assert_eq!(classify(""), generic(""));
}

#[test]
fn chat_in_a_structured_line() {
    assert_eq!(
        classify("[12:00:02] [Server thread/INFO]: <Alice> hello"),
        chat("<", "Alice", ">", "hello")
    );
    assert_eq!(
        classify("[12:00:02] [Async Chat Thread - #1/INFO]: [Server] stopping soon"),
        chat("[", "Server", "]", "stopping soon")
    );
}

#[test]
fn chat_keeps_the_brackets_it_came_in() {
    assert_eq!(classify("[t] [s]: <Bob] mixed"), chat("<", "Bob", "]", "mixed"));
}

#[test]
fn voicechat_is_never_chat() {
    assert_eq!(
        classify("[12:00:03] [Server thread/INFO]: [voicechat] Loading plugin"),
        generic("[12:00:03] [Server thread/INFO]: [voicechat] Loading plugin")
    );
    assert_eq!(
        classify("[12:00:03] [main/WARN]: <voicechat> hello"),
        generic("[12:00:03] [main/WARN]: <voicechat> hello")
    );
}

#[test]
fn voicechat_that_joins_is_a_roster_event() {
    assert_eq!(
        classify("[t] [Server thread/INFO]: [voicechat] Alice joined the game"),
        ClassifiedRecord::RosterEvent {
            name: "[voicechat] Alice".to_string(),
            action: RosterAction::Joined,
            text: "[voicechat] Alice joined the game".to_string(),
        }
    );
}

#[test]
fn console_noise_is_dropped() {
    assert_eq!(
        classify("[12:00:04] [Server thread/INFO]: Thread RCON Client /127.0.0.1 started"),
        ClassifiedRecord::Noise
    );
    assert_eq!(
        classify("[12:00:04] [RCON Listener #1/INFO]: Thread RCON Client /127.0.0.1 shutting down"),
        ClassifiedRecord::Noise
    );
    assert_eq!(
        classify("[12:00:04] [main/INFO]: [voicechat] Thread RCON Client"),
        ClassifiedRecord::Noise
    );
}

#[test]
fn noise_that_a_participant_said_is_chat() {
    assert_eq!(
        classify("[12:00:00] [Server thread/INFO]: <Alice> Thread RCON Client is noisy"),
        chat("<", "Alice", ">", "Thread RCON Client is noisy")
    );
}

#[test]
fn other_server_lines_are_rebuilt() {
    assert_eq!(
        classify("[12:00:05] [Server thread/INFO]: Done (3.2s)! For help, type \"help\""),
        generic("[12:00:05] [Server thread/INFO]: Done (3.2s)! For help, type \"help\"")
    );
    assert_eq!(
        classify("[12:00:05] [Worker-Main-1/INFO]: Preparing spawn area: 5%"),
        generic("[12:00:05] [Worker-Main-1/INFO]: Preparing spawn area: 5%")
    );
}

#[test]
fn rebuilding_drops_what_stood_before_the_time() {
    assert_eq!(classify("xx [t] [s]: c"), generic("[t] [s]: c"));
}

#[test]
fn parts_take_as_much_as_they_can() {
    assert_eq!(classify("[a] [b]: [c] [d]: e"), generic("[a] [b]: [c] [d]: e"));
    assert_eq!(
        classify("[t] [Server thread/INFO]: A joined the game and B left the game"),
        ClassifiedRecord::RosterEvent {
            name: "A joined the game and B".to_string(),
            action: RosterAction::Left,
            text: "A joined the game and B left the game".to_string(),
        }
    );
}

#[test]
fn join_from_another_sender_is_a_log_line() {
    assert_eq!(
        classify("[t] [main/INFO]: Alice joined the game"),
        generic("[t] [main/INFO]: Alice joined the game")
    );
}

#[test]
fn unicode_is_kept() {
    assert_eq!(
        classify("[t] [Server thread/INFO]: <Zoë> grüß dich ☃"),
        chat("<", "Zoë", ">", "grüß dich ☃")
    );
    assert_eq!(classify("naïve ☃ line"), generic("naïve ☃ line"));
}

#[test]
fn structured_line_from_given_search_results() {
    let none: Option<Vec<Option<String>>> = None;
    assert_eq!(
        classify_structured("t", "s", "<Alice> hi", &groups(&["<Alice> hi", "<", "Alice", ">", "hi"]), &none),
        chat("<", "Alice", ">", "hi")
    );
    assert_eq!(
        classify_structured("t", "s", "x", &groups(&["x", "<", "voicechat", ">", "hi"]), &none),
        generic("[t] [s]: x")
    );
    assert_eq!(
        classify_structured(
            "t",
            "Server thread/INFO",
            "Alice joined the game",
            &none,
            &groups(&["Alice joined the game", "Alice", "joined"])
        ),
        ClassifiedRecord::RosterEvent {
            name: "Alice".to_string(),
            action: RosterAction::Joined,
            text: "Alice joined the game".to_string(),
        }
    );
    assert_eq!(
        classify_structured("t", "Server thread/INFO", "Alice hopped", &none, &groups(&["x", "Alice", "hopped"])),
        generic("[t] [Server thread/INFO]: Alice hopped")
    );
    assert_eq!(
        classify_structured("t", "s", "a Thread RCON Client b", &none, &none),
        ClassifiedRecord::Noise
    );
    let short: Option<Vec<Option<String>>> = Some(vec![Some("x".to_string()), None]);
    assert_eq!(classify_structured("t", "Server thread/INFO", "c", &short, &short), generic("[t] [Server thread/INFO]: c"));
}
