use framix::fraction::Fraction;
use framix::progress::ProgressInfo;
use framix::tui::app::{ActiveTab, App, InputField};
use framix::tui::events::{handle_events, KeyCode, KeyPress, Response};
use framix::tui::job::{parse_small_number, Job};
use framix::tui::AppEvent;

fn key(code: KeyCode) -> Option<KeyPress> {
    Some(KeyPress { code, control: false, shift: false })
}

fn control(c: char) -> Option<KeyPress> {
    Some(KeyPress { code: KeyCode::Char(c), control: true, shift: false })
}

fn chars(s: &str) -> Vec<char> {
    s.chars().collect()
}

#[test]
fn starts_with_labels_and_defaults() {
    let app = App::new();
    assert!(app.running);
    assert_eq!(app.active_tab, ActiveTab::Combine);
    assert_eq!(app.combine_inputs.label, "Inputs (space separated)");
    assert_eq!(app.combine_output.label, "Output Path");
    assert_eq!(app.compress_input.label, "Input Video");
    assert_eq!(app.compress_output.label, "Output Path");
    assert_eq!(app.compress_crf.label, "CRF (0-51, Default: 23)");
    assert_eq!(app.compress_crf.value, "23");
    assert_eq!(app.music_video.label, "Video Path");
    assert_eq!(app.music_audio.label, "Audio Path");
    assert_eq!(app.music_output.label, "Output Path");
    assert_eq!(app.music_reduce.label, "Original Volume (0.0-1.0)");
    assert_eq!(app.music_reduce.value, "1.0");
    assert_eq!(app.time_input.label, "Input Video");
    assert_eq!(app.time_output.label, "Output Path");
    assert_eq!(app.time_speed.label, "Speed Factor");
    assert_eq!(app.time_speed.value, "10.0");
    assert_eq!(app.info_input.label, "Video Path");
    assert_eq!(app.combine_inputs.value, "");
    assert_eq!(app.message, "");
    assert_eq!(app.selected_field, 0);
    assert_eq!(app.progress.numerator(), 0);
    assert!(!app.is_processing && !app.is_complete);
    assert!(app.logs.is_empty());
}

#[test]
fn defaults_are_blank() {
    let app = App::default();
    assert!(!app.running);
    assert_eq!(app.active_tab, ActiveTab::default());
    assert_eq!(app.compress_crf.value, "");
    assert_eq!(app.compress_crf.label, "");
    let field = InputField::default();
    assert_eq!((field.value.as_str(), field.label.as_str()), ("", ""));
    assert_eq!(ActiveTab::default(), ActiveTab::Combine);
}

#[test]
fn tabs_go_round() {
    let mut app = App::new();
    app.selected_field = 1;
    app.message = "x".to_string();
    let order = [
        ActiveTab::Compress,
        ActiveTab::AddMusic,
        ActiveTab::Timelapse,
        ActiveTab::Info,
        ActiveTab::Combine,
    ];
    for tab in order {
        app.next_tab();
        assert_eq!(app.active_tab, tab);
        assert_eq!(app.selected_field, 0);
        assert_eq!(app.message, "");
    }
    let back = [
        ActiveTab::Info,
        ActiveTab::Timelapse,
        ActiveTab::AddMusic,
        ActiveTab::Compress,
        ActiveTab::Combine,
    ];
    for tab in back {
        app.selected_field = 2;
        app.prev_tab();
        assert_eq!(app.active_tab, tab);
        assert_eq!(app.selected_field, 0);
    }
    assert_eq!(ActiveTab::Timelapse.index(), 3);
}

#[test]
fn fields_go_round() {
    let mut app = App::new();
    assert_eq!(app.get_field_count(), 2);
    app.next_field();
    assert_eq!(app.selected_field, 1);
    app.next_field();
    assert_eq!(app.selected_field, 0);
    app.prev_field();
    assert_eq!(app.selected_field, 1);
    app.prev_field();
    assert_eq!(app.selected_field, 0);
    app.active_tab = ActiveTab::AddMusic;
    assert_eq!(app.get_field_count(), 4);
    app.prev_field();
    assert_eq!(app.selected_field, 3);
    app.next_field();
    assert_eq!(app.selected_field, 0);
    app.active_tab = ActiveTab::Info;
    assert_eq!(app.get_field_count(), 1);
    app.next_field();
    assert_eq!(app.selected_field, 0);
    app.prev_field();
    assert_eq!(app.selected_field, 0);
    app.selected_field = 9;
    app.next_field();
    assert_eq!(app.selected_field, 0);
}

#[test]
fn typing_goes_to_the_selected_field() {
    let mut app = App::new();
    app.input('a');
    app.input('b');
    assert_eq!(app.combine_inputs.value, "ab");
    app.next_field();
    app.input('c');
    assert_eq!(app.combine_output.value, "c");
    app.backspace();
    app.backspace();
    assert_eq!(app.combine_output.value, "");
    assert_eq!(app.combine_inputs.value, "ab");
    app.active_tab = ActiveTab::Compress;
    app.selected_field = 2;
    app.backspace();
    app.input('0');
    assert_eq!(app.compress_crf.value, "20");
    assert_eq!(app.compress_crf.label, "CRF (0-51, Default: 23)");
    app.selected_field = 7;
    app.input('x');
    assert_eq!(app.compress_input.value, "x");
    app.get_active_field_mut().value = "y".to_string();
    assert_eq!(app.compress_input.value, "y");
}

#[test]
fn messages_are_taken_in() {
    let mut app = App::new();
    assert!(app.request_run());
    assert_eq!(app.message, "Starting...");
    assert!(app.is_processing);
    app.apply_event(AppEvent::Progress(ProgressInfo::Log("line".to_string())));
    app.apply_event(AppEvent::Progress(ProgressInfo::Percentage(Fraction::clamped(1, 4))));
    assert_eq!(app.logs, vec!["line".to_string()]);
    assert_eq!(app.progress.percent(), 25);
    assert!(!app.request_run());
    assert_eq!(app.message, "Already processing...");
    assert_eq!(app.logs.len(), 1);
    app.apply_event(AppEvent::Done);
    assert!(app.is_processing && app.is_complete);
    assert_eq!(app.message, "Process Completed Successfully! Press any key to continue.");
    assert!(app.progress.is_complete());
}

#[test]
fn errors_are_shown_and_logged() {
    let mut app = App::new();
    assert!(app.request_run());
    app.drain(vec![
        AppEvent::Progress(ProgressInfo::Log("one".to_string())),
        AppEvent::Progress(ProgressInfo::Percentage(Fraction::clamped(1, 2))),
        AppEvent::Error("ffmpeg failed with status: exit status: 1".to_string()),
    ]);
    assert!(!app.is_processing);
    assert_eq!(app.message, "Error: ffmpeg failed with status: exit status: 1");
    assert_eq!(
        app.logs,
        vec!["one".to_string(), "Error: ffmpeg failed with status: exit status: 1".to_string()]
    );
    assert_eq!(app.progress.percent(), 50);
    assert!(app.request_run());
    assert!(app.logs.is_empty());
    assert_eq!(app.progress.percent(), 0);
    app.drain(Vec::new());
    assert_eq!(app.message, "Starting...");
}

#[test]
fn keys() {
    let mut app = App::new();
    assert_eq!(handle_events(&mut app, None), Response::Idle);
    assert_eq!(handle_events(&mut app, key(KeyCode::Char('a'))), Response::Idle);
    assert_eq!(handle_events(&mut app, key(KeyCode::Char('c'))), Response::Idle);
    assert_eq!(handle_events(&mut app, control('x')), Response::Idle);
    assert_eq!(app.combine_inputs.value, "acx");
    assert_eq!(handle_events(&mut app, key(KeyCode::Backspace)), Response::Idle);
    assert_eq!(app.combine_inputs.value, "ac");
    assert_eq!(handle_events(&mut app, key(KeyCode::Down)), Response::Idle);
    assert_eq!(app.selected_field, 1);
    assert_eq!(handle_events(&mut app, key(KeyCode::Up)), Response::Idle);
    assert_eq!(app.selected_field, 0);
    assert_eq!(handle_events(&mut app, key(KeyCode::Enter)), Response::Idle);
    assert_eq!(app.selected_field, 1);
    let shift_enter = Some(KeyPress { code: KeyCode::Enter, control: false, shift: true });
    assert_eq!(handle_events(&mut app, shift_enter), Response::Execute);
    assert_eq!(app.selected_field, 1);
    assert_eq!(handle_events(&mut app, control('e')), Response::Execute);
    assert_eq!(handle_events(&mut app, key(KeyCode::Tab)), Response::Complete);
    assert_eq!(handle_events(&mut app, key(KeyCode::Right)), Response::Complete);
    assert_eq!(handle_events(&mut app, key(KeyCode::Other)), Response::Idle);
    assert_eq!(handle_events(&mut app, key(KeyCode::BackTab)), Response::Idle);
    assert_eq!(app.active_tab, ActiveTab::Compress);
    assert_eq!(app.selected_field, 0);
    assert!(app.running);
    assert_eq!(handle_events(&mut app, control('c')), Response::Execute);
    assert!(!app.running);
    app.running = true;
    assert_eq!(handle_events(&mut app, key(KeyCode::Esc)), Response::Idle);
    assert!(!app.running);
}

#[test]
fn any_key_closes_a_completed_run() {
    let mut app = App::new();
    app.apply_event(AppEvent::Done);
    assert_eq!(handle_events(&mut app, key(KeyCode::Char('q'))), Response::Idle);
    assert!(!app.is_processing && !app.is_complete);
    assert_eq!(app.message, "");
    assert_eq!(app.combine_inputs.value, "");
    app.apply_event(AppEvent::Done);
    assert_eq!(handle_events(&mut app, control('c')), Response::Idle);
    assert!(app.running);
    app.apply_event(AppEvent::Done);
    assert_eq!(handle_events(&mut app, None), Response::Idle);
    assert!(app.is_complete);
}

#[test]
fn jobs() {
    let mut app = App::new();
    app.combine_inputs.value = "  a.mp4\tb c.mp4 \u{a0}d  ".to_string();
    app.combine_output.value = "out.mp4".to_string();
    match app.job() {
        Job::Combine { inputs, output } => {
            assert_eq!(inputs, vec!["a.mp4", "b", "c.mp4", "d"]);
            assert_eq!(output, "out.mp4");
        }
        _ => panic!("a combine job was expected"),
    }
    app.combine_inputs.value = " ".to_string();
    match app.job() {
        Job::Combine { inputs, .. } => assert!(inputs.is_empty()),
        _ => panic!("a combine job was expected"),
    }
    app.active_tab = ActiveTab::Compress;
    app.compress_input.value = "in.mp4".to_string();
    match app.job() {
        Job::Compress { input, output, crf } => {
            assert_eq!((input.as_str(), output.as_str(), crf), ("in.mp4", "", 23));
        }
        _ => panic!("a compress job was expected"),
    }
    for (text, crf) in
        [("18", 18), ("+7", 7), ("007", 7), ("255", 255), ("256", 23), ("", 23), (" 18", 23), ("-1", 23), ("+", 23), ("1e1", 23)]
    {
        app.compress_crf.value = text.to_string();
        match app.job() {
            Job::Compress { crf: found, .. } => assert_eq!(found, crf, "{:?}", text),
            _ => panic!("a compress job was expected"),
        }
    }
    app.active_tab = ActiveTab::AddMusic;
    app.music_video.value = "v".to_string();
    app.music_audio.value = "a".to_string();
    app.music_output.value = "o".to_string();
    match app.job() {
        Job::AddMusic { video, audio, output, reduce } => {
            assert_eq!((video.as_str(), audio.as_str(), output.as_str(), reduce.as_str()), ("v", "a", "o", "1.0"));
        }
        _ => panic!("a music job was expected"),
    }
    app.active_tab = ActiveTab::Timelapse;
    app.time_input.value = "i".to_string();
    match app.job() {
        Job::Timelapse { input, output, speed } => {
            assert_eq!((input.as_str(), output.as_str(), speed.as_str()), ("i", "", "10.0"));
        }
        _ => panic!("a timelapse job was expected"),
    }
    app.active_tab = ActiveTab::Info;
    app.info_input.value = "f".to_string();
    match app.job() {
        Job::Info { input } => assert_eq!(input, "f"),
        _ => panic!("an info job was expected"),
    }
    assert_eq!(parse_small_number(&chars("42")), Some(42));
    assert_eq!(parse_small_number(&chars("4 2")), None);
}
