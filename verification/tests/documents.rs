use glance::document::{
    classify_size, load, load_named, DocumentState, LoadError, ReadOutcome, SizeClass,
    LARGE_FILE_THRESHOLD,
};
use glance::paths::{
    classify_extension, classify_path, directory, display_name, display_name_from, extension,
    initial_window_title, is_diagram_path, name_extension, window_title, FileKind, APP_TITLE,
};
use glance::locations::{
    config_file_in, config_path, endpoint_dir, socket_path, socket_path_in, window_state_path,
    APPLICATION, CONFIG_FILE_NAME, ORGANIZATION, QUALIFIER, SOCKET_FILE_NAME,
    WINDOW_STATE_FILE_NAME,
};
use glance::rendezvous::{
    accept_request, check_request, decode_request, encode_request, judge_request, MESSAGE_LIMIT,
};
use glance::settings::ExtensionsConfig;
use std::path::Path;

fn text(content: &str, byte_size: u64) -> ReadOutcome {
    ReadOutcome::Text { content: content.to_string(), byte_size }
}

fn fields(state: &DocumentState) -> (String, String, String, SizeClass, bool) {
    (
        state.content().clone(),
        state.canonical_path().clone(),
        state.display_name().clone(),
        state.size_class(),
        state.no_truncate(),
    )
}

fn opened(path: &str, content: &str, byte_size: u64, no_truncate: bool) -> DocumentState {
    let mut state = DocumentState::new(no_truncate);
    assert!(state.replace(path.to_string(), text(content, byte_size)).is_ok());
    state
}

#[test]
fn threshold_is_500_kib() {
    assert_eq!(LARGE_FILE_THRESHOLD, 512_000);
    assert_eq!(classify_size(0, false), SizeClass::Normal);
    assert_eq!(classify_size(512_000, false), SizeClass::Normal);
    assert_eq!(classify_size(512_001, false), SizeClass::Large);
    assert_eq!(classify_size(u64::MAX, false), SizeClass::Large);
    assert_eq!(classify_size(512_001, true), SizeClass::Normal);
    assert_eq!(classify_size(u64::MAX, true), SizeClass::Normal);
}

#[test]
fn load_reports_each_failure() {
    let missing = load_named("a.md".to_string(), ReadOutcome::Missing, false);
    assert_eq!(missing.err(), Some(LoadError::NotFound));
    let failed = load_named("a.md".to_string(), ReadOutcome::Failed, false);
    assert_eq!(failed.err(), Some(LoadError::ReadFailure));
    let empty = load_named("a.md".to_string(), text("", 0), false);
    assert_eq!(empty.err(), Some(LoadError::EmptyFile));
    let blank = load_named("a.md".to_string(), text(" \n\t\r\n\u{3000}", 9), false);
    assert_eq!(blank.err(), Some(LoadError::EmptyFile));
}

#[test]
fn load_keeps_text_name_and_size_class() {
    let loaded = load_named("notes.md".to_string(), text("  # Notes\n", 10), false).unwrap();
    assert_eq!(loaded.content, "  # Notes\n");
    assert_eq!(loaded.display_name, "notes.md");
    assert_eq!(loaded.size_class, SizeClass::Normal);
    let large = load_named("big.md".to_string(), text("x", 600_000), false).unwrap();
    assert_eq!(large.size_class, SizeClass::Large);
    let whole = load_named("big.md".to_string(), text("x", 600_000), true).unwrap();
    assert_eq!(whole.size_class, SizeClass::Normal);
}

#[test]
fn load_names_the_document_after_its_file() {
    let loaded = load("/home/u/docs/notes.md", text("hello", 5), false).unwrap();
    assert_eq!(loaded.display_name, "notes.md");
    assert_eq!(loaded.content, "hello");
}

#[test]
fn errors_in_words() {
    assert_eq!(LoadError::NotFound.message("/a/b.md"), "File not found: /a/b.md");
    assert_eq!(LoadError::EmptyFile.message("/a/b.md"), "File is empty: /a/b.md");
    assert_eq!(LoadError::ReadFailure.message("/a/b.md"), "Failed to read file: /a/b.md");
    assert_eq!(
        LoadError::UnsupportedType.message("/a/b.txt"),
        "Only markdown and PlantUML files are supported"
    );
}

#[test]
fn new_record_has_no_file() {
    let state = DocumentState::new(true);
    assert!(!state.has_file());
    assert_eq!(
        fields(&state),
        (String::new(), String::new(), "Glance".to_string(), SizeClass::Normal, true)
    );
}

#[test]
fn replace_swaps_the_whole_record() {
    let mut state = opened("/docs/a.md", "# A\n", 4, false);
    let refresh = state
        .replace("/docs/sub/b.markdown".to_string(), text("# B\nbody\n", 700_000))
        .unwrap();
    assert_eq!(refresh.watch_target, "/docs/sub/b.markdown");
    assert_eq!(refresh.display_name, "b.markdown");
    assert_eq!(refresh.window_title, "b.markdown - Glance");
    assert!(state.has_file());
    assert_eq!(
        fields(&state),
        (
            "# B\nbody\n".to_string(),
            "/docs/sub/b.markdown".to_string(),
            "b.markdown".to_string(),
            SizeClass::Large,
            false
        )
    );
}

#[test]
fn failed_replace_leaves_the_record_as_it_was() {
    let mut state = opened("/docs/a.md", "# A\n", 4, false);
    let before = fields(&state);
    assert_eq!(
        state.replace("/docs/b.md".to_string(), ReadOutcome::Missing).err(),
        Some(LoadError::NotFound)
    );
    assert_eq!(fields(&state), before);
    assert_eq!(
        state.replace("/docs/b.md".to_string(), ReadOutcome::Failed).err(),
        Some(LoadError::ReadFailure)
    );
    assert_eq!(fields(&state), before);
    assert_eq!(
        state.replace("/docs/b.md".to_string(), text("  \n", 3)).err(),
        Some(LoadError::EmptyFile)
    );
    assert_eq!(fields(&state), before);
    assert_eq!(state.replace(String::new(), text("x", 1)).err(), Some(LoadError::NotFound));
    assert_eq!(fields(&state), before);
}

#[test]
fn commit_checks_what_it_is_given() {
    let mut state = DocumentState::new(false);
    let loaded = load_named("a.md".to_string(), text("x", 1), false);
    assert_eq!(state.commit(String::new(), loaded).err(), Some(LoadError::NotFound));
    assert!(!state.has_file());
    let loaded = load_named("shown.md".to_string(), text("x", 1), false);
    let refresh = state.commit("/real/a.md".to_string(), loaded).unwrap();
    assert_eq!(refresh.watch_target, "/real/a.md");
    assert_eq!(refresh.window_title, "shown.md - Glance");
    assert_eq!(state.display_name(), "shown.md");
    assert_eq!(state.canonical_path(), "/real/a.md");
}

#[test]
fn record_at_startup() {
    let state = DocumentState::open("link.md", "/real/a.md".to_string(), text("x", 1), true).unwrap();
    assert_eq!(
        fields(&state),
        (
            "x".to_string(),
            "/real/a.md".to_string(),
            "link.md".to_string(),
            SizeClass::Normal,
            true
        )
    );
    let missing = DocumentState::open("a.md", "/a.md".to_string(), ReadOutcome::Missing, false);
    assert_eq!(missing.err(), Some(LoadError::NotFound));
    let empty = DocumentState::open("a.md", "/a.md".to_string(), text("\n", 1), false);
    assert_eq!(empty.err(), Some(LoadError::EmptyFile));
}

#[test]
fn refresh_takes_up_new_text_only() {
    let mut state = opened("/docs/a.md", "# A\n", 600_000, false);
    assert!(state.refresh("/docs/a.md", text("# A\nmore\n", 10)));
    assert_eq!(
        fields(&state),
        (
            "# A\nmore\n".to_string(),
            "/docs/a.md".to_string(),
            "a.md".to_string(),
            SizeClass::Large,
            false
        )
    );
}

#[test]
fn refresh_skips_what_cannot_be_loaded() {
    let mut state = opened("/docs/a.md", "# A\n", 4, false);
    let before = fields(&state);
    assert!(!state.refresh("/docs/a.md", ReadOutcome::Missing));
    assert!(!state.refresh("/docs/a.md", ReadOutcome::Failed));
    assert!(!state.refresh("/docs/a.md", text("   ", 3)));
    assert!(!state.refresh("/docs/other.md", text("# Other\n", 8)));
    assert_eq!(fields(&state), before);
    let mut idle = DocumentState::new(false);
    assert!(!idle.refresh("", text("x", 1)));
    assert!(!idle.refresh("/docs/a.md", text("x", 1)));
    assert!(!idle.has_file());
    assert_eq!(idle.content(), "");
}

#[test]
fn large_documents_are_described_with_sections() {
    let state = opened("/docs/a.md", "intro\n# A\nbody\n", 600_000, false);
    let shown = state.describe(ExtensionsConfig { plantuml: true });
    assert_eq!(shown.content, "intro\n# A\nbody\n");
    assert_eq!(shown.file_path, "/docs/a.md");
    assert_eq!(shown.file_name, "a.md");
    assert_eq!(shown.file_dir, "/docs");
    assert!(shown.is_large_file);
    assert!(shown.extensions.plantuml);
    assert!(!shown.is_plantuml_file);
    let titles: Vec<&str> = shown.sections.iter().map(|s| s.title.as_str()).collect();
    assert_eq!(titles, vec!["Introduction", "A"]);
    assert_eq!(shown.sections[1].content, "# A\nbody");
}

#[test]
fn other_documents_are_described_without_sections() {
    let state = opened("/docs/d.PUML", "@startuml\n# A\n@enduml\n", 30, false);
    let shown = state.describe(ExtensionsConfig { plantuml: false });
    assert!(!shown.is_large_file);
    assert!(shown.sections.is_empty());
    assert!(shown.is_plantuml_file);
    assert!(!shown.extensions.plantuml);
    let whole = opened("/docs/a.md", "# A\n", 600_000, true);
    assert!(whole.describe(ExtensionsConfig { plantuml: false }).sections.is_empty());
    let none = DocumentState::new(false).describe(ExtensionsConfig { plantuml: false });
    assert_eq!(none.file_name, "Glance");
    assert_eq!(none.file_dir, "");
    assert_eq!(none.content, "");
}

#[test]
fn extensions_agree_with_the_standard_library() {
    let names = [
        "a.md", "a", ".md", "a.", "a.b.c", "..a", ".a.b", "a..", "archive.tar.gz", "", "x.MD",
        "\u{e9}t\u{e9}.markdown", "a.m d",
    ];
    for name in names {
        let expected = Path::new(name).extension().map(|e| e.to_string_lossy().into_owned());
        assert_eq!(name_extension(name), expected, "{:?}", name);
    }
    let paths = ["/a/b.md", "/a.d/b", "b.md/", "/a/.hidden", "/a/b.md/..", "/", "rel/x.puml", "a/b.c/"];
    for path in paths {
        let expected = Path::new(path).extension().map(|e| e.to_string_lossy().into_owned());
        assert_eq!(extension(path), expected, "{:?}", path);
    }
}

#[test]
fn kinds_of_file() {
    assert_eq!(classify_path("/a/notes.md"), Some(FileKind::Document));
    assert_eq!(classify_path("/a/NOTES.MD"), Some(FileKind::Document));
    assert_eq!(classify_path("notes.Markdown"), Some(FileKind::Document));
    assert_eq!(classify_path("notes.MAR\u{212A}DOWN"), Some(FileKind::Document));
    assert_eq!(classify_path("d.puml"), Some(FileKind::Diagram));
    assert_eq!(classify_path("d.PlantUML"), Some(FileKind::Diagram));
    assert_eq!(classify_path("notes.txt"), None);
    assert_eq!(classify_path("notes.md.bak"), None);
    assert_eq!(classify_path("notes"), None);
    assert_eq!(classify_path(".md"), None);
    assert_eq!(classify_path("/a/md"), None);
    assert_eq!(classify_path(""), None);
    assert_eq!(classify_extension("md"), Some(FileKind::Document));
    assert_eq!(classify_extension("markdown"), Some(FileKind::Document));
    assert_eq!(classify_extension("puml"), Some(FileKind::Diagram));
    assert_eq!(classify_extension("plantuml"), Some(FileKind::Diagram));
    assert_eq!(classify_extension("MD"), None);
    assert_eq!(classify_extension(""), None);
    assert!(is_diagram_path("x.puml"));
    assert!(!is_diagram_path("x.md"));
    assert!(!is_diagram_path("x"));
}

#[test]
fn names_directories_and_titles() {
    assert_eq!(APP_TITLE, "Glance");
    assert_eq!(display_name("/home/u/notes.md"), "notes.md");
    assert_eq!(display_name("notes.md"), "notes.md");
    assert_eq!(display_name("/"), "Glance");
    assert_eq!(display_name("/a/.."), "Glance");
    assert_eq!(display_name(""), "Glance");
    assert_eq!(display_name_from(Some("x.md".to_string())), "x.md");
    assert_eq!(display_name_from(None), "Glance");
    assert_eq!(directory("/home/u/notes.md"), "/home/u");
    assert_eq!(directory("notes.md"), "");
    assert_eq!(directory("/"), "");
    assert_eq!(directory(""), "");
    assert_eq!(window_title("notes.md"), "notes.md - Glance");
    assert_eq!(window_title(""), " - Glance");
    assert_eq!(initial_window_title("notes.md"), "notes.md - Glance");
    assert_eq!(initial_window_title("Glance"), "Glance");
}

#[test]
fn requests_travel_as_the_bytes_of_the_path() {
    assert_eq!(encode_request("/a/b.md"), b"/a/b.md".to_vec());
    assert_eq!(encode_request(""), Vec::<u8>::new());
    let path = "/home/\u{fc}ser/\u{65e5}\u{672c}.md";
    assert_eq!(encode_request(path), path.as_bytes().to_vec());
    assert_eq!(decode_request(&encode_request(path)), path);
    assert_eq!(decode_request(b"/a/b.md"), "/a/b.md");
    assert_eq!(decode_request(b""), "");
    assert_eq!(decode_request(&[0x2f, 0x61, 0xff, 0x62]), "/a\u{fffd}b");
}

#[test]
fn endpoint_is_named_after_the_application() {
    assert_eq!((QUALIFIER, ORGANIZATION, APPLICATION), ("com", "glance", "glance"));
    assert_eq!(SOCKET_FILE_NAME, "glance.sock");
    assert_eq!(MESSAGE_LIMIT, 4096);
    assert_eq!(endpoint_dir(Some("/run/user/1"), "/home/u/.cache"), "/run/user/1");
    assert_eq!(endpoint_dir(None, "/home/u/.cache"), "/home/u/.cache");
}

#[test]
fn endpoint_lies_in_the_runtime_directory_or_else_in_the_cache() {
    assert_eq!(
        socket_path_in(Some("/run/user/1/glance".to_string()), "/home/u/.cache/glance".to_string()),
        "/run/user/1/glance/glance.sock"
    );
    assert_eq!(
        socket_path_in(None, "/home/u/.cache/glance".to_string()),
        "/home/u/.cache/glance/glance.sock"
    );
    assert_eq!(socket_path_in(None, "/cache/".to_string()), "/cache/glance.sock");
}

#[test]
fn kept_files_lie_in_the_configuration_directory() {
    let dir = || Some("/home/u/.config/glance".to_string());
    assert_eq!(
        config_file_in(dir(), WINDOW_STATE_FILE_NAME),
        Some("/home/u/.config/glance/window.json".to_string())
    );
    assert_eq!(
        config_file_in(dir(), CONFIG_FILE_NAME),
        Some("/home/u/.config/glance/config.toml".to_string())
    );
    assert_eq!(config_file_in(None, CONFIG_FILE_NAME), None);
}

#[test]
fn files_of_this_user_carry_their_names() {
    assert_eq!((WINDOW_STATE_FILE_NAME, CONFIG_FILE_NAME), ("window.json", "config.toml"));
    if let Some(path) = socket_path() {
        assert_eq!(Path::new(&path).file_name().unwrap(), "glance.sock");
    }
    if let Some(path) = window_state_path() {
        assert_eq!(Path::new(&path).file_name().unwrap(), "window.json");
    }
    if let Some(path) = config_path() {
        assert_eq!(Path::new(&path).file_name().unwrap(), "config.toml");
    }
    assert_eq!(socket_path().is_some(), config_path().is_some());
}

#[test]
fn requests_are_judged_before_the_file_is_read() {
    assert_eq!(check_request("/a/b.md", true), Ok(FileKind::Document));
    assert_eq!(check_request("/a/b.PUML", true), Ok(FileKind::Diagram));
    assert_eq!(check_request("/a/b.txt", true), Err(LoadError::UnsupportedType));
    assert_eq!(check_request("/a/b", true), Err(LoadError::UnsupportedType));
    assert_eq!(check_request("/a/b.md", false), Err(LoadError::NotFound));
    assert_eq!(check_request("/a/b.txt", false), Err(LoadError::NotFound));
    assert_eq!(judge_request(Some(FileKind::Diagram), true), Ok(FileKind::Diagram));
    assert_eq!(judge_request(None, true), Err(LoadError::UnsupportedType));
    assert_eq!(judge_request(Some(FileKind::Document), false), Err(LoadError::NotFound));
    assert_eq!(judge_request(None, false), Err(LoadError::NotFound));
}

#[test]
fn forwarded_text_file_is_rejected() {
    let mut state = opened("/docs/a.md", "# A\n", 4, false);
    let before = fields(&state);
    let result = accept_request(
        &mut state,
        "/docs/notes.txt",
        true,
        Some("/docs/notes.txt".to_string()),
        text("plain text", 10),
    );
    assert_eq!(result.err(), Some(LoadError::UnsupportedType));
    assert_eq!(fields(&state), before);
}

#[test]
fn forwarded_document_is_opened() {
    let mut state = opened("/docs/a.md", "# A\n", 4, false);
    let refresh = accept_request(
        &mut state,
        "link/../b.md",
        true,
        Some("/docs/b.md".to_string()),
        text("# B\n", 4),
    )
    .unwrap();
    assert_eq!(refresh.watch_target, "/docs/b.md");
    assert_eq!(refresh.display_name, "b.md");
    assert_eq!(refresh.window_title, "b.md - Glance");
    assert_eq!(
        fields(&state),
        ("# B\n".to_string(), "/docs/b.md".to_string(), "b.md".to_string(), SizeClass::Normal, false)
    );
}

#[test]
fn forwarded_request_that_fails_changes_nothing() {
    let mut state = opened("/docs/a.md", "# A\n", 4, false);
    let before = fields(&state);
    let canonical = || Some("/docs/b.md".to_string());
    let gone = accept_request(&mut state, "/docs/b.md", false, None, ReadOutcome::Missing);
    assert_eq!(gone.err(), Some(LoadError::NotFound));
    let empty = accept_request(&mut state, "/docs/b.md", true, canonical(), text(" ", 1));
    assert_eq!(empty.err(), Some(LoadError::EmptyFile));
    let unreadable = accept_request(&mut state, "/docs/b.md", true, canonical(), ReadOutcome::Failed);
    assert_eq!(unreadable.err(), Some(LoadError::ReadFailure));
    let unresolved = accept_request(&mut state, "/docs/b.md", true, None, text("# B\n", 4));
    assert_eq!(unresolved.err(), Some(LoadError::ReadFailure));
    let vanished = accept_request(&mut state, "/docs/b.md", true, canonical(), ReadOutcome::Missing);
    assert_eq!(vanished.err(), Some(LoadError::NotFound));
    assert_eq!(fields(&state), before);
}
