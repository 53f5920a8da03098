use notifier::{delivered, Notification, PROGRAM};

fn list(items: &[&str]) -> Vec<String> {
    items.iter().map(|s| s.to_string()).collect()
}

#[test]
fn program_is_notify_send() {
    assert_eq!(PROGRAM, "notify-send");
}

#[test]
fn only_exit_code_zero_is_delivered() {
    assert!(delivered(Some(0)));
    assert!(!delivered(Some(1)));
    assert!(!delivered(Some(-1)));
    assert!(!delivered(Some(255)));
    assert!(!delivered(Some(i32::MIN)));
    assert!(!delivered(Some(i32::MAX)));
    assert!(!delivered(None));
}

#[test]
fn send_reports_failure_on_exit_status_one() {
    let mut n = Notification::new();
    assert!(!n.send(|_args| Some(1)));
}

#[test]
fn send_reports_success_on_exit_status_zero() {
    let mut n = Notification::new();
    assert!(n.send(|_args| Some(0)));
}

#[test]
fn send_reports_failure_without_an_exit_code() {
    let mut n = Notification::new();
    assert!(!n.send(|_args| None));
}

#[test]
fn send_hands_the_default_arguments_to_the_runner() {
    let mut seen: Vec<String> = Vec::new();
    let mut n = Notification::new();
    let ok = n.send(|args| {
        seen = args;
        Some(0)
    });
    assert!(ok);
    assert_eq!(seen, list(&["-t", "5000", "-i", "dialog-information", "", ""]));
}

#[test]
fn send_hands_the_configured_arguments_to_the_runner() {
    let mut seen: Vec<String> = Vec::new();
    let mut n = Notification::new();
    n.summary("Build finished").body("All tests passed").timeout(3000).app("ci-bot");
    let ok = n.send(|args| {
        seen = args;
        Some(1)
    });
    assert!(!ok);
    assert_eq!(
        seen,
        list(&[
            "-t",
            "3000",
            "-a",
            "ci-bot",
            "-i",
            "dialog-information",
            "Build finished",
            "All tests passed"
        ])
    );
}

#[test]
fn send_calls_the_runner_once() {
    let mut calls = 0;
    let mut n = Notification::new();
    n.send(|_args| {
        calls += 1;
        Some(0)
    });
    assert_eq!(calls, 1);
}

#[test]
fn a_request_can_be_sent_again_unchanged() {
    let mut n = Notification::new();
    n.summary("again").app("loop");
    let before = n.arguments();
    let mut first: Vec<String> = Vec::new();
    let mut second: Vec<String> = Vec::new();
    assert!(n.send(|args| {
        first = args;
        Some(0)
    }));
    assert!(!n.send(|args| {
        second = args;
        Some(2)
    }));
    assert_eq!(first, before);
    assert_eq!(second, before);
    assert_eq!(n.arguments(), before);
}

#[test]
fn a_request_can_be_changed_between_sends() {
    let mut n = Notification::new();
    let mut first: Vec<String> = Vec::new();
    let mut second: Vec<String> = Vec::new();
    n.summary("one").send(|args| {
        first = args;
        Some(0)
    });
    n.summary("two").send(|args| {
        second = args;
        Some(0)
    });
    assert_eq!(first[4], "one");
    assert_eq!(second[4], "two");
}
