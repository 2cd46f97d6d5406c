use mc_console::classifier::RosterAction;
use mc_console::roster::Roster;

#[test]
fn new_roster_is_empty() {
    let roster = Roster::new();
    assert_eq!(roster.len(), 0);
    assert!(roster.names().is_empty());
    assert!(!roster.contains("Alice"));
}

#[test]
fn join_adds_and_notifies() {
    let mut roster = Roster::new();
    let notice = roster.apply("Alice", RosterAction::Joined, "Alice joined the game");
    assert_eq!(notice, Some("Alice joined the game".to_string()));
    assert_eq!(roster.names(), vec!["Alice".to_string()]);
    assert!(roster.contains("Alice"));
}

#[test]
fn joining_twice_is_joining_once() {
    let mut once = Roster::new();
    once.apply("Alice", RosterAction::Joined, "Alice joined the game");
    let mut twice = Roster::new();
    twice.apply("Alice", RosterAction::Joined, "Alice joined the game");
    let second = twice.apply("Alice", RosterAction::Joined, "Alice joined the game");
    assert_eq!(second, None);
    assert_eq!(once.names(), twice.names());
    assert_eq!(twice.len(), 1);
}

#[test]
fn leaving_when_absent_changes_nothing() {
    let mut roster = Roster::new();
    roster.apply("Alice", RosterAction::Joined, "Alice joined the game");
    let notice = roster.apply("Ghost", RosterAction::Left, "Ghost left the game");
    assert_eq!(notice, None);
    assert_eq!(roster.names(), vec!["Alice".to_string()]);
}

#[test]
fn leave_removes_and_notifies() {
    let mut roster = Roster::new();
    roster.apply("Alice", RosterAction::Joined, "a");
    let notice = roster.apply("Alice", RosterAction::Left, "Alice left the game");
    assert_eq!(notice, Some("Alice left the game".to_string()));
    assert_eq!(roster.len(), 0);
    assert!(!roster.contains("Alice"));
}

#[test]
fn the_last_takes_the_place_of_the_one_that_leaves() {
    let mut roster = Roster::new();
    for name in ["A", "B", "C", "D"] {
        roster.apply(name, RosterAction::Joined, "");
    }
    roster.apply("B", RosterAction::Left, "");
    assert_eq!(roster.names(), vec!["A".to_string(), "D".to_string(), "C".to_string()]);
    roster.apply("C", RosterAction::Left, "");
    assert_eq!(roster.names(), vec!["A".to_string(), "D".to_string()]);
}

#[test]
fn names_stay_distinct() {
    let mut roster = Roster::new();
    for name in ["A", "B", "A", "C", "B", "A"] {
        roster.apply(name, RosterAction::Joined, "");
    }
    let mut names = roster.names();
    names.sort();
    assert_eq!(names, vec!["A".to_string(), "B".to_string(), "C".to_string()]);
}
