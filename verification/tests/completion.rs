use framix::tui::app::{ActiveTab, App};
use framix::tui::complete::{find_last, has_start, no_later, string_between, Query};
use framix::tui::ui::{center, render, render_tabs, Status};
use framix::fraction::Fraction;
use framix::progress::ProgressInfo;
use framix::tui::AppEvent;

fn chars(s: &str) -> Vec<char> {
    s.chars().collect()
}

fn strings(items: &[&str]) -> Vec<String> {
    items.iter().map(|s| s.to_string()).collect()
}

#[test]
fn last_path_of_a_list_is_completed() {
    let mut app = App::new();
    app.combine_inputs.value = "a.mp4 /tmp/fo".to_string();
    let query = app.query('/');
    assert_eq!(query.prefix, "a.mp4 ");
    assert_eq!(query.dir, "/tmp/");
    assert_eq!(query.file_part, "fo");
    assert_eq!(query.search_dir(), "/tmp/");
    let path = query.candidate(&strings(&["bar", "foo", "fob", "fo\u{e9}"])).unwrap();
    assert_eq!(path, "/tmp/fob");
    app.autocomplete(&query.prefix, &path, true, '/');
    assert_eq!(app.combine_inputs.value, "a.mp4 /tmp/fob/");
    app.autocomplete(&query.prefix, &path, false, '/');
    assert_eq!(app.combine_inputs.value, "a.mp4 /tmp/fob");
}

#[test]
fn single_path_is_completed_whole() {
    let mut app = App::new();
    app.selected_field = 1;
    app.combine_output.value = "my dir/fi".to_string();
    let query = app.query('/');
    assert_eq!((query.prefix.as_str(), query.dir.as_str(), query.file_part.as_str()), ("", "my dir/", "fi"));
    app.active_tab = ActiveTab::Info;
    app.info_input.value = "vid".to_string();
    let query = app.query('/');
    assert_eq!((query.prefix.as_str(), query.dir.as_str(), query.file_part.as_str()), ("", "", "vid"));
    assert_eq!(query.search_dir(), ".");
    assert_eq!(query.candidate(&strings(&["video.mp4", "vid", "other"])).unwrap(), "vid");
    assert!(query.candidate(&strings(&["other", "vi"])).is_none());
    assert!(query.candidate(&Vec::new()).is_none());
    app.info_input.value = "a\\b\\".to_string();
    let query = app.query('\\');
    assert_eq!((query.dir.as_str(), query.file_part.as_str()), ("a\\b\\", ""));
    assert_eq!(query.candidate(&strings(&["z", "Z", "a"])).unwrap(), "a\\b\\Z");
}

#[test]
fn empty_list_field() {
    let mut app = App::new();
    let query = app.query('/');
    assert_eq!((query.prefix.as_str(), query.dir.as_str(), query.file_part.as_str()), ("", "", ""));
    app.combine_inputs.value = "one ".to_string();
    let query = app.query('/');
    assert_eq!((query.prefix.as_str(), query.dir.as_str(), query.file_part.as_str()), ("one ", "", ""));
    assert_eq!(app.active_value(), "one ");
}

#[test]
fn order_of_names() {
    assert!(no_later(&chars("a"), &chars("ab")));
    assert!(!no_later(&chars("ab"), &chars("a")));
    assert!(no_later(&chars("ab"), &chars("ab")));
    assert!(no_later(&chars("Zz"), &chars("a")));
    assert!(no_later(&chars(""), &chars("")));
    assert!(!no_later(&chars("b"), &chars("ab")));
    assert!(has_start(&chars("video"), &chars("vid")));
    assert!(has_start(&chars("video"), &chars("")));
    assert!(!has_start(&chars("vi"), &chars("vid")));
    assert!(!has_start(&chars("vod"), &chars("vid")));
    assert_eq!(find_last(&chars("a/b/c"), '/'), Some(3));
    assert_eq!(find_last(&chars("abc"), '/'), None);
    assert_eq!(string_between(&chars("abcdef"), 2, 4), "cd");
    let query = Query { prefix: String::new(), dir: String::new(), file_part: String::new() };
    assert_eq!(query.search_dir(), ".");
}

#[test]
fn tab_titles_are_centred() {
    assert_eq!(
        render_tabs(52),
        strings(&[" Combine  ", " Compress ", "Add Music ", "Fast Forward", "   Info   "])
    );
    assert_eq!(render_tabs(1), strings(&["Combine", "Compress", "Add Music", "Fast Forward", "Info"]));
    assert_eq!(render_tabs(0), render_tabs(6));
    assert_eq!(center("ab", 5), " ab  ");
    assert_eq!(center("ab", 6), "  ab  ");
    assert_eq!(center("ab", 2), "ab");
    assert_eq!(center("\u{e9}", 3), " \u{e9} ");
}

#[test]
fn screen_of_a_form() {
    let mut app = App::new();
    app.active_tab = ActiveTab::Compress;
    app.selected_field = 2;
    app.message = "hello".to_string();
    let screen = render(&app, 82);
    assert_eq!(screen.active_tab, 1);
    assert_eq!(screen.tab_titles[4], "      Info      ");
    let shown: Vec<(String, String, bool)> =
        screen.fields.iter().map(|f| (f.label.clone(), f.value.clone(), f.selected)).collect();
    assert_eq!(
        shown,
        vec![
            ("Input Video".to_string(), "".to_string(), false),
            ("Output Path".to_string(), "".to_string(), false),
            ("CRF (0-51, Default: 23)".to_string(), "23".to_string(), true),
        ]
    );
    assert!(matches!(screen.status, Status::Note { text } if text == "hello"));
    app.active_tab = ActiveTab::AddMusic;
    assert_eq!(render(&app, 82).fields.len(), 4);
    app.active_tab = ActiveTab::Info;
    let screen = render(&app, 82);
    assert_eq!(screen.fields.len(), 1);
    assert!(!screen.fields[0].selected);
}

#[test]
fn screen_of_a_run() {
    let mut app = App::new();
    assert!(app.request_run());
    match render(&app, 40).status {
        Status::Gauge { title, label, percent, complete } => {
            assert_eq!((title.as_str(), label.as_str(), percent, complete), ("Processing", "Processing...", 0, false));
        }
        _ => panic!("a gauge was expected"),
    }
    app.drain(vec![
        AppEvent::Progress(ProgressInfo::Log("first".to_string())),
        AppEvent::Progress(ProgressInfo::Log("second".to_string())),
        AppEvent::Progress(ProgressInfo::Percentage(Fraction::clamped(97, 100))),
    ]);
    match render(&app, 40).status {
        Status::Gauge { title, label, percent, complete } => {
            assert_eq!((title.as_str(), label.as_str(), percent, complete), ("Processing", "second", 97, false));
        }
        _ => panic!("a gauge was expected"),
    }
    app.apply_event(AppEvent::Done);
    match render(&app, 40).status {
        Status::Gauge { title, label, percent, complete } => {
            assert_eq!(title, "Completed");
            assert_eq!(label, "Process Completed Successfully! Press any key to continue.");
            assert_eq!((percent, complete), (100, true));
        }
        _ => panic!("a gauge was expected"),
    }
}
