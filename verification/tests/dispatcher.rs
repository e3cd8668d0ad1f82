use editor_core::Content;
use editor_core::Document;
use editor_core::EditAction;
use editor_core::Effect;
use editor_core::Error;
use editor_core::Event;
use editor_core::IoErrorKind;
use editor_core::Theme;
use editor_core::load_completed;
use editor_core::open_cancelled;
use editor_core::save_cancelled;
use editor_core::save_completed;
use editor_core::save_dialog_outcome;
use editor_core::save_shortcut;

fn chars(s: &str) -> Vec<char> {
    s.chars().collect()
}

fn fresh() -> Document {
    Document {
        path: None,
        content: Content::new(),
        is_dirty: true,
        error: None,
        theme: Theme::SolarizedDark,
    }
}

#[test]
fn new_file_save_through_dialog() {
    let mut doc = fresh();

    let eff = doc.update(Event::RequestNew);
    assert!(eff.is_none());
    assert!(doc.path.is_none());
    assert!(doc.is_dirty);
    assert!(doc.content.text.is_empty());

    assert!(doc.update(Event::Edit(EditAction::Insert('h'))).is_none());
    assert!(doc.update(Event::Edit(EditAction::Insert('i'))).is_none());
    assert!(doc.is_dirty);
    assert!(doc.error.is_none());
    assert_eq!(doc.content.text, chars("hi"));

    let eff = doc.update(Event::RequestSave);
    let (path, text) = match eff {
        Some(Effect::Save(path, text)) => (path, text),
        _ => panic!("a save request must issue a save effect"),
    };
    assert!(path.is_none());
    assert_eq!(text, chars("hi"));

    let resolved = save_dialog_outcome(path, Some(chars("/tmp/a.txt")));
    let resolved = resolved.expect("a picked location resolves the save path");
    assert_eq!(resolved, chars("/tmp/a.txt"));

    let done = save_completed(resolved, Ok(()));
    assert!(doc.update(done).is_none());
    assert_eq!(doc.path, Some(chars("/tmp/a.txt")));
    assert!(!doc.is_dirty);
}

#[test]
fn failed_open_reports_kind_and_keeps_document() {
    let mut doc = fresh();
    doc.update(Event::Edit(EditAction::Insert('x')));

    let eff = doc.update(Event::FileOpened(Err(Error::IoFailed(IoErrorKind::NotFound))));
    assert!(eff.is_none());
    assert_eq!(doc.error, Some(Error::IoFailed(IoErrorKind::NotFound)));
    assert_eq!(doc.content.text, chars("x"));
    assert!(doc.path.is_none());
    assert_eq!(doc.shown_error(), Some(IoErrorKind::NotFound));
}

#[test]
fn save_effect_carries_snapshot_not_later_edits() {
    let mut doc = fresh();
    doc.update(Event::FileOpened(Ok((chars("/tmp/t.txt"), chars("T0")))));

    let eff = doc.update(Event::RequestSave);
    doc.update(Event::Edit(EditAction::Insert('!')));
    assert_eq!(doc.content.text, chars("!T0"));

    match eff {
        Some(Effect::Save(path, text)) => {
            assert_eq!(path, Some(chars("/tmp/t.txt")));
            assert_eq!(text, chars("T0"));
        },
        _ => panic!("a save request must issue a save effect"),
    }
}

#[test]
fn cancelled_dialog_is_not_a_displayed_error() {
    let mut doc = fresh();
    doc.update(Event::FileOpened(Err(Error::IoFailed(IoErrorKind::PermissionDenied))));
    assert_eq!(doc.shown_error(), Some(IoErrorKind::PermissionDenied));

    let before_text = doc.content.text.clone();
    let eff = doc.update(open_cancelled());
    assert!(eff.is_none());
    assert_eq!(doc.content.text, before_text);
    assert!(doc.path.is_none());
    assert_eq!(doc.shown_error(), None);
    assert_eq!(fresh().shown_error(), None);
}

#[test]
fn load_then_save_round_trips_content() {
    let mut doc = fresh();
    let eff = doc.update(Event::FileOpened(Ok((chars("/tmp/r.txt"), chars("line\ntwo")))));
    assert!(eff.is_none());
    assert!(!doc.is_dirty);

    let eff = doc.update(Event::RequestSave);
    match eff {
        Some(Effect::Save(path, text)) => {
            assert_eq!(path, Some(chars("/tmp/r.txt")));
            assert_eq!(text, chars("line\ntwo"));
        },
        _ => panic!("a save request must issue a save effect"),
    }
}

#[test]
fn dirty_stays_set_across_edits_until_save_completes() {
    let mut doc = fresh();
    doc.update(Event::FileOpened(Ok((chars("/tmp/d.txt"), chars("abc")))));
    assert!(!doc.is_dirty);

    doc.update(Event::Edit(EditAction::MoveRight));
    assert!(!doc.is_dirty);

    doc.update(Event::Edit(EditAction::Insert('z')));
    assert!(doc.is_dirty);
    doc.update(Event::Edit(EditAction::MoveLeft));
    assert!(doc.is_dirty);
    doc.update(Event::Edit(EditAction::Delete));
    assert!(doc.is_dirty);

    doc.update(Event::FileSaved(Ok(chars("/tmp/d.txt"))));
    assert!(!doc.is_dirty);
}

#[test]
fn any_edit_clears_a_prior_error() {
    let mut doc = fresh();
    doc.update(Event::FileSaved(Err(Error::IoFailed(IoErrorKind::Other))));
    assert!(doc.error.is_some());

    doc.update(Event::Edit(EditAction::MoveLeft));
    assert!(doc.error.is_none());
}

#[test]
fn open_request_issues_dialog_effect_and_changes_nothing() {
    let mut doc = fresh();
    doc.update(Event::Edit(EditAction::Insert('q')));
    let eff = doc.update(Event::RequestOpen);
    assert!(matches!(eff, Some(Effect::OpenDialog)));
    assert_eq!(doc.content.text, chars("q"));
    assert!(doc.is_dirty);
}

#[test]
fn theme_selection_changes_theme_and_appearance() {
    let mut doc = fresh();
    assert_eq!(doc.appearance(), editor_core::Appearance::Dark);
    let eff = doc.update(Event::ThemeSelected(Theme::InspiredGitHub));
    assert!(eff.is_none());
    assert_eq!(doc.theme, Theme::InspiredGitHub);
    assert_eq!(doc.appearance(), editor_core::Appearance::Light);
}

#[test]
fn init_starts_dirty_with_default_theme_and_load_effect() {
    let (doc, eff) = Document::init(chars("hello"), chars("/tmp/start.rs"));
    assert!(doc.path.is_none());
    assert!(doc.is_dirty);
    assert!(doc.error.is_none());
    assert_eq!(doc.theme, Theme::SolarizedDark);
    assert_eq!(doc.content.text, chars("hello"));
    match eff {
        Effect::Load(path) => assert_eq!(path, chars("/tmp/start.rs")),
        _ => panic!("startup must request the default load"),
    }
}

#[test]
fn failed_save_keeps_dirty_flag_and_path() {
    let mut doc = fresh();
    doc.update(Event::FileOpened(Ok((chars("/tmp/k.txt"), chars("keep")))));
    doc.update(Event::Edit(EditAction::Insert('!')));
    assert!(doc.is_dirty);

    doc.update(Event::FileSaved(Err(Error::IoFailed(IoErrorKind::PermissionDenied))));
    assert!(doc.is_dirty);
    assert_eq!(doc.path, Some(chars("/tmp/k.txt")));
    assert_eq!(doc.error, Some(Error::IoFailed(IoErrorKind::PermissionDenied)));
}

#[test]
fn save_dialog_outcome_prefers_known_path() {
    let r = save_dialog_outcome(Some(chars("/tmp/known.txt")), None);
    assert_eq!(r, Ok(chars("/tmp/known.txt")));

    let r = save_dialog_outcome(Some(chars("/tmp/known.txt")), Some(chars("/tmp/picked.txt")));
    assert_eq!(r, Ok(chars("/tmp/known.txt")));

    let r = save_dialog_outcome(None, Some(chars("/tmp/picked.txt")));
    assert_eq!(r, Ok(chars("/tmp/picked.txt")));

    let r = save_dialog_outcome(None, None);
    assert_eq!(r, Err(Error::DialogClosed));
}

#[test]
fn completion_events_classify_failures() {
    match load_completed(chars("/tmp/x"), Ok(chars("body"))) {
        Event::FileOpened(Ok((path, text))) => {
            assert_eq!(path, chars("/tmp/x"));
            assert_eq!(text, chars("body"));
        },
        _ => panic!("a successful read completes as an opened file"),
    }
    match load_completed(chars("/tmp/x"), Err(IoErrorKind::InvalidData)) {
        Event::FileOpened(Err(e)) => assert_eq!(e, Error::IoFailed(IoErrorKind::InvalidData)),
        _ => panic!("a failed read completes as a failure"),
    }
    match save_completed(chars("/tmp/y"), Ok(())) {
        Event::FileSaved(Ok(path)) => assert_eq!(path, chars("/tmp/y")),
        _ => panic!("a successful write completes as a saved file"),
    }
    match save_completed(chars("/tmp/y"), Err(IoErrorKind::TimedOut)) {
        Event::FileSaved(Err(e)) => assert_eq!(e, Error::IoFailed(IoErrorKind::TimedOut)),
        _ => panic!("a failed write completes as a failure"),
    }
    assert!(matches!(save_cancelled(), Event::FileSaved(Err(Error::DialogClosed))));
    assert!(matches!(open_cancelled(), Event::FileOpened(Err(Error::DialogClosed))));
}

#[test]
fn save_shortcut_needs_command_and_s() {
    assert!(matches!(save_shortcut('s', true), Some(Event::RequestSave)));
    assert!(matches!(save_shortcut('S', true), Some(Event::RequestSave)));
    assert!(save_shortcut('s', false).is_none());
    assert!(save_shortcut('S', false).is_none());
    assert!(save_shortcut('a', true).is_none());
}

#[test]
fn replace_edits_drive_dirty_by_their_own_judgment() {
    let mut doc = fresh();
    doc.update(Event::FileOpened(Ok((chars("/tmp/w.txt"), chars("shown")))));
    doc.update(Event::FileSaved(Err(Error::IoFailed(IoErrorKind::Other))));
    assert!(!doc.is_dirty);
    assert!(doc.error.is_some());

    let eff = doc.update(Event::Edit(EditAction::Replace {
        text: chars("shown"),
        cursor: 2,
        mutating: false,
    }));
    assert!(eff.is_none());
    assert!(!doc.is_dirty);
    assert!(doc.error.is_none());
    assert_eq!(doc.content.cursor, 2);

    doc.update(Event::Edit(EditAction::Replace {
        text: chars("shown!"),
        cursor: 6,
        mutating: true,
    }));
    assert!(doc.is_dirty);
    assert_eq!(doc.content.text, chars("shown!"));

    let eff = doc.update(Event::RequestSave);
    match eff {
        Some(Effect::Save(path, text)) => {
            assert_eq!(path, Some(chars("/tmp/w.txt")));
            assert_eq!(text, chars("shown!"));
        },
        _ => panic!("a save request must issue a save effect"),
    }
}
