use khonsu_tools::publish::{
    check_continue, execute, is_affirmative, Action, Config, DefaultConfig, Error, Event,
    Publisher, Readmes, State,
};

struct Two;

impl Config for Two {
    fn paths() -> Vec<String> {
        vec!["crates/core".to_string(), "crates/cli".to_string()]
    }
}

fn answer(response: &str) -> Event {
    Event::Answer { response: response.to_string() }
}

fn expect_publish(action: Action, path: &str, args: &[&str]) {
    match action {
        Action::Publish { path: actual, invocation } => {
            assert_eq!(actual, path);
            assert_eq!(invocation.program, "cargo");
            assert_eq!(invocation.args, args);
            assert!(invocation.env.is_empty());
        }
        _ => panic!("expected a publish"),
    }
}

fn expect_ask(action: Action, prompt: &str) {
    match action {
        Action::Ask { prompt: actual } => assert_eq!(actual, prompt),
        _ => panic!("expected a prompt"),
    }
}

#[test]
fn accepted_answers_are_exact() {
    assert!(is_affirmative("y"));
    assert!(is_affirmative("yes"));
    assert!(is_affirmative(""));
    assert!(!is_affirmative("Y"));
    assert!(!is_affirmative("YES"));
    assert!(!is_affirmative("Yes"));
    assert!(!is_affirmative("no"));
    assert!(!is_affirmative("n"));
    assert!(!is_affirmative("ye"));
    assert!(!is_affirmative("yess"));
    assert!(!is_affirmative(" y"));
    assert!(!is_affirmative("yés"));
}

#[test]
fn responses_are_trimmed_first() {
    assert_eq!(check_continue("y\n"), Ok(()));
    assert_eq!(check_continue("  yes \r\n"), Ok(()));
    assert_eq!(check_continue("\n"), Ok(()));
    assert_eq!(check_continue(""), Ok(()));
    assert_eq!(check_continue("\t y \u{a0}"), Ok(()));
    assert_eq!(check_continue("no\n"), Err(Error::Aborted));
    assert_eq!(check_continue("y e s\n"), Err(Error::Aborted));
    assert_eq!(check_continue("Y\n"), Err(Error::Aborted));
}

#[test]
fn declined_confirmation_aborts_before_anything_is_published() {
    let (mut publisher, action) = execute::<Two>(false, false);
    assert!(matches!(action, Action::GenerateReadmes));
    let action = publisher.step(Event::Readmes { outcome: Readmes::Generated });
    expect_ask(action, "Proceed with publishing crates/core? [y/yes]");
    match publisher.step(answer("no")) {
        Action::Finish { result } => assert_eq!(result, Err(Error::Aborted)),
        _ => panic!("expected the end"),
    }
    assert_eq!(publisher.state(), State::Failed { error: Error::Aborted });
    assert_eq!(Error::Aborted.message(), "Aborting.");
    assert!(matches!(publisher.step(answer("y")), Action::Nothing));
    assert!(matches!(publisher.step(Event::Published { success: true }), Action::Nothing));
    assert_eq!(publisher.state(), State::Failed { error: Error::Aborted });
}

#[test]
fn no_paths_fail_at_once() {
    let (publisher, action) = execute::<DefaultConfig>(false, false);
    match action {
        Action::Finish { result } => assert_eq!(result, Err(Error::NoPaths)),
        _ => panic!("expected the end"),
    }
    assert_eq!(publisher.state(), State::Failed { error: Error::NoPaths });
    assert_eq!(Error::NoPaths.message(), "no publish paths configured");
}

#[test]
fn every_package_is_published_in_order() {
    let (mut publisher, _) = execute::<Two>(true, true);
    assert_eq!(publisher.state(), State::GeneratingReadmes);
    let action = publisher.step(Event::Readmes { outcome: Readmes::NoConfiguration });
    expect_ask(action, "Proceed with publishing crates/core? [y/yes]");
    assert_eq!(publisher.state(), State::Confirming { index: 0 });
    let action = publisher.step(answer("y\n"));
    expect_publish(action, "crates/core", &["publish", "--dry-run", "--allow-dirty"]);
    assert_eq!(publisher.state(), State::Publishing { index: 0 });
    let action = publisher.step(Event::Published { success: true });
    expect_ask(action, "Proceed with publishing crates/cli? [y/yes]");
    let action = publisher.step(answer("\n"));
    expect_publish(action, "crates/cli", &["publish", "--dry-run", "--allow-dirty"]);
    match publisher.step(Event::Published { success: true }) {
        Action::Finish { result } => assert_eq!(result, Ok(())),
        _ => panic!("expected the end"),
    }
    assert_eq!(publisher.state(), State::Completed);
}

#[test]
fn failed_publish_is_retried_while_the_user_agrees() {
    let mut publisher = Publisher::new(vec!["only".to_string()], false, true);
    assert_eq!(publisher.state(), State::Idle);
    assert!(matches!(publisher.step(Event::Start), Action::GenerateReadmes));
    publisher.step(Event::Readmes { outcome: Readmes::Generated });
    expect_publish(publisher.step(answer("yes")), "only", &["publish", "--allow-dirty"]);
    for _ in 0..3 {
        match publisher.step(Event::Published { success: false }) {
            Action::AskRetry { prompt } => assert_eq!(prompt, "Retry? [y/yes]"),
            _ => panic!("expected a retry prompt"),
        }
        assert_eq!(publisher.state(), State::ConfirmingRetry { index: 0 });
        expect_publish(publisher.step(answer("")), "only", &["publish", "--allow-dirty"]);
    }
    publisher.step(Event::Published { success: false });
    match publisher.step(answer("n")) {
        Action::Finish { result } => assert_eq!(result, Err(Error::Aborted)),
        _ => panic!("expected the end"),
    }
}

#[test]
fn failed_readmes_end_the_run() {
    let (mut publisher, _) = execute::<Two>(false, false);
    match publisher.step(Event::Readmes { outcome: Readmes::Failed }) {
        Action::Finish { result } => assert_eq!(result, Err(Error::Readmes)),
        _ => panic!("expected the end"),
    }
    assert_eq!(publisher.state(), State::Failed { error: Error::Readmes });
}

#[test]
fn events_out_of_turn_change_nothing() {
    let (mut publisher, _) = execute::<Two>(false, false);
    assert!(matches!(publisher.step(answer("y")), Action::Nothing));
    assert!(matches!(publisher.step(Event::Start), Action::Nothing));
    assert!(matches!(publisher.step(Event::Published { success: true }), Action::Nothing));
    assert_eq!(publisher.state(), State::GeneratingReadmes);
}

#[test]
fn plain_publish_has_no_flags() {
    let mut publisher = Publisher::new(vec!["p".to_string()], false, false);
    publisher.step(Event::Start);
    publisher.step(Event::Readmes { outcome: Readmes::Generated });
    expect_publish(publisher.step(answer("y")), "p", &["publish"]);
}
