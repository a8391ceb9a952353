use rspinner::spinner::{frame, Control, Directive, Poll, Spinner, Tick, FRAME_COUNT};
use rspinner::stream::{compose_line, render_line, State, Stream};

fn control_of(d: Directive) -> (bool, Control) {
    match d {
        Directive::Signal(c) => (true, c),
        Directive::Print(c) => (false, c),
    }
}

fn newlines(s: &str) -> usize {
    s.chars().filter(|c| *c == '\n').count()
}

#[test]
fn success_after_construction_shows_stored_message() {
    let mut spinner = Spinner::new(Some("Loading..."));
    let (signalled, c) = control_of(spinner.success(None));
    assert!(!signalled);
    assert_eq!(c.state, State::Success);
    assert_eq!(c.message, "Loading...");
    let line = render_line("", &c.message, c.state);
    assert!(line.ends_with('\n'));
    assert_eq!(newlines(&line), 1);
    assert!(line.contains('✔'));
    assert!(line.contains("Loading..."));
    assert!(!spinner.is_animating());
}

#[test]
fn two_steps_leave_two_final_lines() {
    let mut out = String::new();
    let mut spinner = Spinner::new(None);

    let launch = spinner.start(Some("Step 1"));
    assert!(launch.halt.is_none());
    let mut task = launch.animation;
    match task.tick(Poll::Empty) {
        Tick::Frame { glyph, message } => {
            assert_eq!(glyph, "⠋");
            assert_eq!(message, "Step 1");
            let line = render_line(&glyph, &message, State::Loading);
            assert!(line.starts_with('\r'));
            assert!(!line.contains('\n'));
            out.push_str(&line);
        }
        _ => panic!("expected a frame"),
    }
    let (signalled, c) = control_of(spinner.success(Some("Done")));
    assert!(signalled);
    match task.tick(Poll::Message(c)) {
        Tick::Finish(c) => {
            assert_eq!(c.state, State::Success);
            assert_eq!(c.message, "Done");
            out.push_str(&render_line("", &c.message, c.state));
        }
        _ => panic!("expected the final line"),
    }
    assert!(task.is_done());
    assert!(matches!(task.tick(Poll::Empty), Tick::Quit));

    let launch = spinner.start(Some("Step 2"));
    assert!(launch.halt.is_none());
    let mut task = launch.animation;
    match task.tick(Poll::Empty) {
        Tick::Frame { glyph, message } => {
            assert_eq!(message, "Step 2");
            out.push_str(&render_line(&glyph, &message, State::Loading));
        }
        _ => panic!("expected a frame"),
    }
    let (signalled, c) = control_of(spinner.error(Some("Failed")));
    assert!(signalled);
    match task.tick(Poll::Message(c)) {
        Tick::Finish(c) => {
            assert_eq!(c.state, State::Error);
            assert_eq!(c.message, "Failed");
            out.push_str(&render_line("", &c.message, c.state));
        }
        _ => panic!("expected the final line"),
    }
    assert_eq!(newlines(&out), 2);
    let done = out.find("Done").unwrap();
    let failed = out.find("Failed").unwrap();
    assert!(done < failed);
    assert!(out.contains('✔'));
    assert!(out.contains('✖'));
}

#[test]
fn construct_and_drop_leaves_no_task() {
    let mut spinner = Spinner::new(None);
    assert!(spinner.teardown().is_none());
    assert!(!spinner.is_animating());
}

#[test]
fn default_message_and_stream() {
    let spinner = Spinner::new(None);
    assert_eq!(spinner.message(), "Loading...");
    assert_eq!(spinner.stream(), Stream::Stderr);
    assert_eq!(Stream::default(), Stream::Stderr);
    assert!(!spinner.is_animating());
}

#[test]
fn message_fallback_keeps_constructor_message() {
    let mut spinner = Spinner::new(Some("Working"));
    let (_, c) = control_of(spinner.warning(None));
    assert_eq!(c.state, State::Warn);
    assert_eq!(c.message, "Working");

    let launch = spinner.start(None);
    assert_eq!(spinner.message(), "Working");
    let mut task = launch.animation;
    assert!(matches!(task.tick(Poll::Empty), Tick::Frame { .. }));
    let (signalled, c) = control_of(spinner.info(None));
    assert!(signalled);
    assert_eq!(c.state, State::Info);
    assert_eq!(c.message, "Working");
    let line = render_line("", &c.message, c.state);
    assert!(line.contains("Working"));
}

#[test]
fn start_with_message_replaces_stored_one() {
    let mut spinner = Spinner::new(Some("first"));
    let _ = spinner.start(Some("second"));
    assert_eq!(spinner.message(), "second");
    let (_, c) = control_of(spinner.error(None));
    assert_eq!(c.message, "second");
}

#[test]
fn explicit_message_does_not_replace_stored_one() {
    let mut spinner = Spinner::new(Some("kept"));
    let (_, c) = control_of(spinner.success(Some("once")));
    assert_eq!(c.message, "once");
    assert_eq!(spinner.message(), "kept");
}

#[test]
fn restart_stops_running_task_first() {
    let mut spinner = Spinner::new(None);
    let mut first = spinner.start(Some("a")).animation;
    let launch = spinner.start(Some("b"));
    let halt = launch.halt.expect("the running task must be stopped");
    assert_eq!(halt.state, State::Loading);
    assert!(matches!(first.tick(Poll::Message(halt)), Tick::Quit));
    assert!(first.is_done());
    assert!(spinner.is_animating());
}

#[test]
fn final_status_when_idle_prints_directly() {
    let mut spinner = Spinner::new(Some("idle"));
    let (signalled, c) = control_of(spinner.info(None));
    assert!(!signalled);
    assert_eq!(c.state, State::Info);
    let (signalled, _) = control_of(spinner.error(None));
    assert!(!signalled);
}

#[test]
fn second_final_status_finds_no_task() {
    let mut spinner = Spinner::new(None);
    let _ = spinner.start(None);
    let (signalled, _) = control_of(spinner.success(None));
    assert!(signalled);
    let (signalled, c) = control_of(spinner.success(None));
    assert!(!signalled);
    assert_eq!(c.message, "Loading...");
}

#[test]
fn teardown_stops_running_task_silently() {
    let mut spinner = Spinner::new(None);
    let mut task = spinner.start(None).animation;
    assert!(matches!(task.tick(Poll::Empty), Tick::Frame { .. }));
    let halt = spinner.teardown().expect("a task runs");
    assert!(!spinner.is_animating());
    assert!(matches!(task.tick(Poll::Message(halt)), Tick::Quit));
    assert!(task.is_done());
    assert!(matches!(task.tick(Poll::Empty), Tick::Quit));
    assert!(spinner.teardown().is_none());
}

#[test]
fn closed_channel_ends_task_silently() {
    let mut spinner = Spinner::new(None);
    let mut task = spinner.start(None).animation;
    assert!(matches!(task.tick(Poll::Disconnected), Tick::Quit));
    assert!(task.is_done());
    let c = Control { state: State::Success, message: String::from("late") };
    assert!(matches!(task.tick(Poll::Message(c)), Tick::Quit));
}

#[test]
fn frames_cycle_through_all_glyphs() {
    let mut spinner = Spinner::new(None);
    let launch = spinner.start(None);
    assert_eq!(launch.animation.stream(), Stream::Stderr);
    let mut task = launch.animation;
    let expected = ["⠋", "⠙", "⠹", "⠸", "⠼", "⠴", "⠦", "⠧", "⠇", "⠏", "⠋", "⠙"];
    for want in expected.iter() {
        match task.tick(Poll::Empty) {
            Tick::Frame { glyph, message } => {
                assert_eq!(glyph, *want);
                assert_eq!(message, "Loading...");
            }
            _ => panic!("expected a frame"),
        }
    }
    assert_eq!(FRAME_COUNT, 10);
    assert_eq!(frame(9), "⠏");
}

#[test]
fn compose_line_layout() {
    assert_eq!(compose_line("✔", "Done", State::Success), "\r✔ Done\n");
    assert_eq!(compose_line("⠋", "Work", State::Loading), "\r⠋ Work");
    assert_eq!(compose_line("", "", State::Error), "\r \n");
}

#[test]
fn icons_per_state() {
    assert_eq!(State::Loading.icon("⠼"), "⠼");
    assert_eq!(State::Info.icon("⠼"), "ℹ️");
    assert_eq!(State::Success.icon("⠼"), "✔");
    assert_eq!(State::Warn.icon("⠼"), "⚠");
    assert_eq!(State::Error.icon("⠼"), "✖");
}

#[test]
fn render_line_colours_the_icon() {
    colored::control::set_override(true);
    assert_eq!(render_line("", "Done", State::Success), "\r\u{1b}[32m✔\u{1b}[0m Done\n");
    assert_eq!(render_line("", "Careful", State::Warn), "\r\u{1b}[33m⚠\u{1b}[0m Careful\n");
    assert_eq!(render_line("", "Failed", State::Error), "\r\u{1b}[31m✖\u{1b}[0m Failed\n");
    assert_eq!(render_line("⠙", "Work", State::Loading), "\r\u{1b}[34m⠙\u{1b}[0m Work");
    assert_eq!(render_line("", "Note", State::Info), "\r\u{1b}[34mℹ️\u{1b}[0m Note\n");
}

#[test]
fn render_line_is_plain_or_coloured() {
    let line = render_line("", "ok", State::Success);
    assert!(line == "\r✔ ok\n" || line == "\r\u{1b}[32m✔\u{1b}[0m ok\n");
}
