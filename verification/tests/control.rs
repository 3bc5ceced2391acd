use glance::cli::{argument_is_option, parse_args, Invocation, HELP_TEXT, VERSION};
use glance::settings::{AppConfig, ExtensionsConfig, WindowState};
use glance::watch::{
    calls_for_reload, ChangeKind, RetargetSlot, WatchController, POLL_INTERVAL_MS,
    SETTLE_DELAY_MS, WAIT_TIMEOUT_MS,
};

fn args(list: &[&str]) -> Vec<String> {
    list.iter().map(|a| a.to_string()).collect()
}

fn run(list: &[&str]) -> (Option<String>, bool) {
    match parse_args(&args(list)) {
        Invocation::Run { file, no_truncate } => (file, no_truncate),
        other => panic!("expected a run, got {:?}", other),
    }
}

fn watched(controller: &WatchController) -> Option<String> {
    controller.watched().cloned()
}

#[test]
fn help_and_version_are_asked_for_first() {
    assert!(matches!(parse_args(&args(&["glance", "--help"])), Invocation::Help));
    assert!(matches!(parse_args(&args(&["glance", "-h"])), Invocation::Help));
    assert!(matches!(parse_args(&args(&["glance", "--version"])), Invocation::Version));
    assert!(matches!(parse_args(&args(&["glance", "-v"])), Invocation::Version));
    assert!(matches!(parse_args(&args(&["glance", "-h", "a.md"])), Invocation::Help));
    assert_eq!(run(&["glance", "a.md", "--help"]), (Some("a.md".to_string()), false));
    assert_eq!(run(&["--help"]), (None, false));
}

#[test]
fn file_is_the_first_argument_that_is_no_option() {
    assert_eq!(run(&["glance"]), (None, false));
    assert_eq!(run(&[]), (None, false));
    assert_eq!(run(&["glance", "a.md"]), (Some("a.md".to_string()), false));
    assert_eq!(run(&["glance", "a.md", "b.md"]), (Some("a.md".to_string()), false));
    assert_eq!(run(&["glance", "--other", "a.md"]), (Some("a.md".to_string()), false));
    assert_eq!(run(&["glance", "-x"]), (Some("-x".to_string()), false));
    assert_eq!(run(&["glance", "--"]), (None, false));
    assert_eq!(run(&["glance", ""]), (Some(String::new()), false));
}

#[test]
fn no_truncate_may_stand_anywhere() {
    assert_eq!(run(&["glance", "--no-truncate"]), (None, true));
    assert_eq!(run(&["glance", "--no-truncate", "a.md"]), (Some("a.md".to_string()), true));
    assert_eq!(run(&["glance", "a.md", "--no-truncate"]), (Some("a.md".to_string()), true));
    assert_eq!(run(&["--no-truncate", "a.md"]), (Some("a.md".to_string()), true));
    assert_eq!(run(&["glance", "a.md", "--no-truncat"]), (Some("a.md".to_string()), false));
}

#[test]
fn help_names_every_option() {
    let lines: Vec<&str> = HELP_TEXT.lines().collect();
    assert_eq!(
        lines,
        vec![
            "glance - A minimal markdown viewer",
            "",
            "USAGE:",
            "    glance <file.md> [options]",
            "",
            "OPTIONS:",
            "    --help, -h       Show this help message",
            "    --version, -v    Show version",
            "    --no-truncate    Render entire file regardless of size",
        ]
    );
    assert!(HELP_TEXT.ends_with('\n'));
    assert_eq!(VERSION, "0.1.0");
}

#[test]
fn options_begin_with_two_dashes() {
    assert!(argument_is_option("--"));
    assert!(argument_is_option("--no-truncate"));
    assert!(argument_is_option("---"));
    assert!(!argument_is_option("-"));
    assert!(!argument_is_option("-h"));
    assert!(!argument_is_option(""));
    assert!(!argument_is_option("a--"));
}

#[test]
fn defaults_of_what_is_kept() {
    let window = WindowState::default();
    assert_eq!((window.x, window.y, window.width, window.height), (100, 100, 900, 700));
    let config = AppConfig::default();
    assert!(!config.no_truncate);
    assert!(!config.extensions.plantuml);
    assert!(!ExtensionsConfig::default().plantuml);
}

#[test]
fn what_was_kept_wins_over_the_defaults() {
    let kept = WindowState { x: -5, y: 7, width: 300, height: 200 };
    let window = WindowState::resolve(Some(kept));
    assert_eq!((window.x, window.y, window.width, window.height), (-5, 7, 300, 200));
    let window = WindowState::resolve(None);
    assert_eq!((window.x, window.y, window.width, window.height), (100, 100, 900, 700));
    let read = AppConfig { no_truncate: true, extensions: ExtensionsConfig { plantuml: true } };
    let config = AppConfig::resolve(Some(read));
    assert!(config.no_truncate && config.extensions.plantuml);
    let config = AppConfig::resolve(None);
    assert!(!config.no_truncate && !config.extensions.plantuml);
}

#[test]
fn flag_or_settings_show_documents_whole() {
    let off = AppConfig::default();
    let on = AppConfig { no_truncate: true, extensions: ExtensionsConfig::default() };
    assert!(!off.shows_whole(false));
    assert!(off.shows_whole(true));
    assert!(on.shows_whole(false));
    assert!(on.shows_whole(true));
}

#[test]
fn creation_and_modification_call_for_a_reload() {
    assert!(calls_for_reload(ChangeKind::Create));
    assert!(calls_for_reload(ChangeKind::Modify));
    assert!(!calls_for_reload(ChangeKind::Any));
    assert!(!calls_for_reload(ChangeKind::Access));
    assert!(!calls_for_reload(ChangeKind::Remove));
    assert!(!calls_for_reload(ChangeKind::Other));
}

#[test]
fn delays_of_the_watch_loop() {
    assert_eq!(POLL_INTERVAL_MS, 500);
    assert_eq!(WAIT_TIMEOUT_MS, 100);
    assert_eq!(SETTLE_DELAY_MS, 50);
}

#[test]
fn slot_keeps_the_latest_request_only() {
    let mut slot = RetargetSlot::new();
    assert_eq!(slot.take(), None);
    slot.offer("/a.md".to_string());
    slot.offer("/b.md".to_string());
    assert_eq!(slot.take(), Some("/b.md".to_string()));
    assert_eq!(slot.take(), None);
}

#[test]
fn controller_starts_idle_without_a_file() {
    let mut controller = WatchController::new();
    assert_eq!(watched(&controller), None);
    assert!(controller.start("", true).is_none());
    assert!(controller.start("/a.md", false).is_none());
    assert!(controller.start("", false).is_none());
    assert_eq!(watched(&controller), None);
}

#[test]
fn controller_starts_watching_the_open_file() {
    let mut controller = WatchController::new();
    let plan = controller.start("/a.md", true).unwrap();
    assert_eq!(plan.unwatch, None);
    assert_eq!(plan.watch, "/a.md");
    assert_eq!(watched(&controller), None);
    controller.subscribed(true);
    assert_eq!(watched(&controller), Some("/a.md".to_string()));
}

#[test]
fn retarget_gives_up_the_old_path_and_takes_up_the_new() {
    let mut controller = WatchController::new();
    let first = controller.retarget("/a.md".to_string());
    assert_eq!((first.unwatch, first.watch.as_str()), (None, "/a.md"));
    controller.subscribed(true);
    let second = controller.retarget("/b.md".to_string());
    assert_eq!((second.unwatch, second.watch.as_str()), (Some("/a.md".to_string()), "/b.md"));
    assert_eq!(watched(&controller), None);
    controller.subscribed(true);
    assert_eq!(watched(&controller), Some("/b.md".to_string()));
    controller.subscribed(false);
    assert_eq!(watched(&controller), Some("/b.md".to_string()));
}

#[test]
fn failed_subscription_leaves_nothing_watched() {
    let mut controller = WatchController::new();
    controller.retarget("/a.md".to_string());
    controller.subscribed(true);
    controller.retarget("/gone.md".to_string());
    controller.subscribed(false);
    assert_eq!(watched(&controller), None);
    let next = controller.retarget("/c.md".to_string());
    assert_eq!(next.unwatch, None);
    controller.subscribed(true);
    assert_eq!(watched(&controller), Some("/c.md".to_string()));
}

#[test]
fn drain_takes_up_the_waiting_request() {
    let mut controller = WatchController::new();
    let mut slot = RetargetSlot::new();
    assert!(controller.drain(&mut slot).is_none());
    controller.retarget("/a.md".to_string());
    controller.subscribed(true);
    slot.offer("/b.md".to_string());
    slot.offer("/c.md".to_string());
    let plan = controller.drain(&mut slot).unwrap();
    assert_eq!((plan.unwatch, plan.watch.as_str()), (Some("/a.md".to_string()), "/c.md"));
    controller.subscribed(true);
    assert_eq!(watched(&controller), Some("/c.md".to_string()));
    assert!(controller.drain(&mut slot).is_none());
    assert_eq!(watched(&controller), Some("/c.md".to_string()));
}
