use todo_cli::cli::{check_due, check_id, parse_args, Command};
use todo_cli::due::CivilDateTime;
use todo_cli::todo::Priority;

fn args(items: &[&str]) -> Vec<String> {
    items.iter().map(|s| s.to_string()).collect()
}

fn error_of(items: &[&str]) -> String {
    match parse_args(&args(items)) {
        Ok(_) => panic!("accepted"),
        Err(e) => e,
    }
}

#[test]
fn no_command() {
    assert_eq!(error_of(&[]), "No command provided");
}

#[test]
fn unknown_command() {
    assert_eq!(error_of(&["frobnicate"]), "Unknown command frobnicate");
    assert_eq!(error_of(&["Add", "x"]), "Unknown command Add");
}

#[test]
fn add_needs_a_text() {
    assert_eq!(error_of(&["add"]), "Missing todo text");
}

#[test]
fn add_with_text_only() {
    match parse_args(&args(&["add", "buy milk"])) {
        Ok(Command::Add { text, priority, tags, due }) => {
            assert_eq!(text, "buy milk");
            assert_eq!(priority, None);
            assert!(tags.is_empty());
            assert_eq!(due, None);
        }
        _ => panic!("not an add"),
    }
}

#[test]
fn add_with_every_option() {
    let line = ["add", "x", "--tag", "a", "--priority", "HIGH", "--tag", "b", "--due", "2024-05-17T09:30:00", "--tag", "a"];
    match parse_args(&args(&line)) {
        Ok(Command::Add { text, priority, tags, due }) => {
            assert_eq!(text, "x");
            assert_eq!(priority, Some(Priority::High));
            assert_eq!(tags, args(&["a", "b", "a"]));
            assert_eq!(
                due,
                Some(CivilDateTime { year: 2024, month: 5, day: 17, hour: 9, minute: 30, second: 0, nano: 0 })
            );
        }
        _ => panic!("not an add"),
    }
}

#[test]
fn later_priority_wins() {
    match parse_args(&args(&["add", "x", "--priority", "low", "--priority", "medium"])) {
        Ok(Command::Add { priority, .. }) => assert_eq!(priority, Some(Priority::Medium)),
        _ => panic!("not an add"),
    }
}

#[test]
fn add_errors() {
    assert_eq!(error_of(&["add", "x", "--priority"]), "Missing value for --priority");
    assert_eq!(error_of(&["add", "x", "--tag"]), "Missing value for --tag");
    assert_eq!(error_of(&["add", "x", "--due"]), "Missing value for --due");
    assert_eq!(error_of(&["add", "x", "--colour", "red"]), "Unknown argument: --colour");
    assert_eq!(error_of(&["add", "x", "--due-before", "2024-05-17T09:30:00"]), "Unknown argument: --due-before");
    assert_eq!(
        error_of(&["add", "x", "--priority", "urgent"]),
        "Invalid priority 'urgent'. Allowed values: high, medium, low"
    );
    assert_eq!(error_of(&["add", "x", "--due", "tomorrow"]), "Invalid date and time 'tomorrow'");
    assert_eq!(error_of(&["add", "x", "--tag", "a", "y"]), "Unknown argument: y");
}

#[test]
fn list_without_filters() {
    match parse_args(&args(&["list"])) {
        Ok(Command::List { priority, tag, due_before }) => {
            assert_eq!(priority, None);
            assert_eq!(tag, None);
            assert_eq!(due_before, None);
        }
        _ => panic!("not a list"),
    }
}

#[test]
fn list_with_filters() {
    let line = ["list", "--tag", "home", "--due-before", "2025-12-31T23:59:59.5", "--priority", "Low", "--tag", "work"];
    match parse_args(&args(&line)) {
        Ok(Command::List { priority, tag, due_before }) => {
            assert_eq!(priority, Some(Priority::Low));
            assert_eq!(tag, Some("work".to_string()));
            assert_eq!(
                due_before,
                Some(CivilDateTime { year: 2025, month: 12, day: 31, hour: 23, minute: 59, second: 59, nano: 500_000_000 })
            );
        }
        _ => panic!("not a list"),
    }
}

#[test]
fn list_errors() {
    assert_eq!(error_of(&["list", "--priority"]), "Missing value for --priority");
    assert_eq!(error_of(&["list", "--tag"]), "Missing value for --tag");
    assert_eq!(error_of(&["list", "--due-before"]), "Missing value for --due-before");
    assert_eq!(error_of(&["list", "--due", "2024-05-17T09:30:00"]), "Unknown argument: --due");
    assert_eq!(error_of(&["list", "home"]), "Unknown argument: home");
    assert_eq!(error_of(&["list", "--due-before", "2024-02-30T00:00:00"]), "Invalid date and time '2024-02-30T00:00:00'");
}

#[test]
fn commands_with_an_id() {
    assert!(matches!(parse_args(&args(&["done", "42"])), Ok(Command::Done { id: 42 })));
    assert!(matches!(parse_args(&args(&["remove", "+7"])), Ok(Command::Remove { id: 7 })));
    assert!(matches!(parse_args(&args(&["toggle", "007"])), Ok(Command::Toggle { id: 7 })));
    assert!(matches!(parse_args(&args(&["done", "0"])), Ok(Command::Done { id: 0 })));
}

#[test]
fn id_errors() {
    assert_eq!(error_of(&["done"]), "Missing todo id");
    assert_eq!(error_of(&["remove", "x"]), "Invalid id 'x'");
    assert_eq!(error_of(&["toggle", "-1"]), "Invalid id '-1'");
    assert_eq!(error_of(&["toggle", ""]), "Invalid id ''");
    assert_eq!(error_of(&["toggle", "+"]), "Invalid id '+'");
    assert_eq!(error_of(&["toggle", "1 "]), "Invalid id '1 '");
    assert_eq!(error_of(&["done", "99999999999999999999999999"]), "Invalid id '99999999999999999999999999'");
    assert_eq!(error_of(&["done", "1", "2"]), "Unknown argument: 2");
}

#[test]
fn check_due_passes_a_read_value_on() {
    let c = CivilDateTime { year: 1, month: 2, day: 3, hour: 4, minute: 5, second: 6, nano: 7 };
    assert_eq!(check_due("anything", Some(c)), Ok(c));
    assert_eq!(check_due("anything", None), Err("Invalid date and time 'anything'".to_string()));
}

#[test]
fn check_id_decides_from_what_was_read() {
    assert_eq!(check_id(&args(&["done", "zz"]), Some(5)), Ok(5));
    assert_eq!(check_id(&args(&["done", "5"]), None), Err("Invalid id '5'".to_string()));
    assert_eq!(check_id(&args(&["done"]), Some(5)), Err("Missing todo id".to_string()));
    assert_eq!(check_id(&args(&["done", "5", "6"]), Some(5)), Err("Unknown argument: 6".to_string()));
}
