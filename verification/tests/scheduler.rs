use bar_widgets::buffer::SharedLineBuffer;
use bar_widgets::config::{take_or_empty, WidgetSpec};
use bar_widgets::display::{DisplayedState, TickOutcome};
use bar_widgets::error::WidgetError;
use bar_widgets::scheduler::{
    content_mode, poll_tick, recover_output, tooltip_tick, ContentMode, Schedule, TickSource,
    TOOLTIP_INTERVAL_MS,
};
use bar_widgets::widgets::label_widget::update_from_buffer;

fn display(text: &str, tooltip: &str) -> DisplayedState {
    DisplayedState::new(text.to_string(), tooltip.to_string())
}

#[test]
fn tooltip_interval_is_one_second() {
    assert_eq!(TOOLTIP_INTERVAL_MS, 1000);
}

#[test]
fn new_display_shows_what_it_was_given() {
    let shown = display("text", "tip");
    assert_eq!(shown.current_text, "text");
    assert_eq!(shown.current_tooltip, "tip");
}

#[test]
fn refresh_text_writes_only_on_change() {
    let mut shown = display("a", "tip");
    assert_eq!(shown.refresh_text("a".to_string()), TickOutcome::Unchanged);
    assert_eq!(shown, display("a", "tip"));
    assert_eq!(shown.refresh_text("b".to_string()), TickOutcome::Redrawn);
    assert_eq!(shown, display("b", "tip"));
}

#[test]
fn refresh_tooltip_writes_only_on_change() {
    let mut shown = display("a", "tip");
    assert_eq!(shown.refresh_tooltip("tip".to_string()), TickOutcome::Unchanged);
    assert_eq!(shown, display("a", "tip"));
    assert_eq!(shown.refresh_tooltip("top".to_string()), TickOutcome::Redrawn);
    assert_eq!(shown, display("a", "top"));
}

#[test]
fn comparison_is_exact() {
    let mut shown = display("hi", "");
    assert_eq!(poll_tick(&mut shown, Ok("hi ".to_string())), TickOutcome::Redrawn);
    assert_eq!(shown.current_text, "hi ");
    assert_eq!(poll_tick(&mut shown, Ok("hi \n".to_string())), TickOutcome::Redrawn);
    assert_eq!(shown.current_text, "hi \n");
    assert_eq!(poll_tick(&mut shown, Ok("Hi \n".to_string())), TickOutcome::Redrawn);
    assert_eq!(poll_tick(&mut shown, Ok("Hi \n".to_string())), TickOutcome::Unchanged);
}

#[test]
fn poll_tick_leaves_the_tooltip_alone() {
    let mut shown = display("", "tip");
    poll_tick(&mut shown, Ok("42%".to_string()));
    assert_eq!(shown, display("42%", "tip"));
}

#[test]
fn tooltip_tick_prepends_the_prefix() {
    let mut shown = display("text", "Load: ");
    assert_eq!(tooltip_tick(&mut shown, "Load: ", Ok("0.42".to_string())), TickOutcome::Redrawn);
    assert_eq!(shown, display("text", "Load: 0.42"));
    assert_eq!(tooltip_tick(&mut shown, "Load: ", Ok("0.42".to_string())), TickOutcome::Unchanged);
    assert_eq!(tooltip_tick(&mut shown, "Load: ", Ok("<b>1</b>".to_string())), TickOutcome::Redrawn);
    assert_eq!(shown.current_tooltip, "Load: <b>1</b>");
}

#[test]
fn tooltip_tick_with_empty_prefix_shows_the_output() {
    let mut shown = display("text", "");
    assert_eq!(tooltip_tick(&mut shown, "", Ok("up".to_string())), TickOutcome::Redrawn);
    assert_eq!(shown.current_tooltip, "up");
}

#[test]
fn unchanged_output_draws_at_most_once() {
    for start in ["", "same", "other"] {
        let mut shown = display(start, start);
        let mut text_draws = 0;
        let mut tooltip_draws = 0;
        for _ in 0..10 {
            if poll_tick(&mut shown, Ok("same".to_string())) == TickOutcome::Redrawn {
                text_draws += 1;
            }
            if tooltip_tick(&mut shown, "", Ok("same".to_string())) == TickOutcome::Redrawn {
                tooltip_draws += 1;
            }
        }
        let expected = if start == "same" { 0 } else { 1 };
        assert_eq!(text_draws, expected);
        assert_eq!(tooltip_draws, expected);
        assert_eq!(shown, display("same", "same"));
    }
}

#[test]
fn recover_output_maps_failure_to_empty() {
    assert_eq!(recover_output(Ok("out".to_string())), "out");
    assert_eq!(recover_output(Ok(String::new())), "");
    assert_eq!(recover_output(Err(WidgetError::ExecutionFailed)), "");
}

#[test]
fn take_or_empty_maps_absent_to_empty() {
    assert_eq!(take_or_empty(Some("x".to_string())), "x");
    assert_eq!(take_or_empty(None), "");
}

#[test]
fn content_mode_cases() {
    assert_eq!(content_mode("", 500, false), ContentMode::Static);
    assert_eq!(content_mode("", 500, true), ContentMode::Static);
    assert_eq!(content_mode("date", 0, false), ContentMode::Static);
    assert_eq!(content_mode("date", 0, true), ContentMode::Static);
    assert_eq!(content_mode("date", 1, false), ContentMode::Polling);
    assert_eq!(content_mode("date", u64::MAX, true), ContentMode::Listening);
}

#[test]
fn widget_spec_mode_treats_absent_as_empty() {
    let mut spec = WidgetSpec {
        static_text: Some("static".to_string()),
        content_command: None,
        tooltip_prefix: None,
        tooltip_command: None,
        activation_command: None,
        update_rate_ms: 500,
        listen_mode: true,
    };
    assert_eq!(spec.mode(), ContentMode::Static);
    spec.content_command = Some(String::new());
    assert_eq!(spec.mode(), ContentMode::Static);
    spec.content_command = Some("cmd".to_string());
    assert_eq!(spec.mode(), ContentMode::Listening);
    spec.listen_mode = false;
    assert_eq!(spec.mode(), ContentMode::Polling);
    spec.update_rate_ms = 0;
    assert_eq!(spec.mode(), ContentMode::Static);
}

#[test]
fn update_from_buffer_shows_the_line() {
    let mut buffer = SharedLineBuffer::new();
    let mut shown = display("old", "tip");
    buffer.write("fresh".to_string());
    assert_eq!(update_from_buffer(&mut shown, Ok(buffer.read())), TickOutcome::Redrawn);
    assert_eq!(shown, display("fresh", "tip"));
    assert_eq!(update_from_buffer(&mut shown, Ok(buffer.read())), TickOutcome::Unchanged);
    assert_eq!(shown, display("fresh", "tip"));
}

#[test]
fn update_from_buffer_skips_when_the_buffer_is_unavailable() {
    let mut shown = display("kept", "tip");
    assert_eq!(
        update_from_buffer(&mut shown, Err(WidgetError::BufferUnavailable)),
        TickOutcome::Skipped
    );
    assert_eq!(shown, display("kept", "tip"));
    assert_eq!(update_from_buffer(&mut shown, Ok("next".to_string())), TickOutcome::Redrawn);
    assert_eq!(shown.current_text, "next");
}

#[test]
fn buffer_keeps_the_last_write() {
    let mut buffer = SharedLineBuffer::new();
    assert_eq!(buffer.read(), "");
    buffer.write("one".to_string());
    buffer.write("two".to_string());
    assert_eq!(buffer.read(), "two");
    assert_eq!(buffer.read(), "two");
    assert_eq!(buffer.last_line, "two");
}

#[test]
fn first_firing_is_immediate_and_later_ones_wait_an_interval() {
    for interval_ms in [0, 1, 500, 1000, u64::MAX] {
        let schedule = Schedule { interval_ms, source: TickSource::Buffer };
        assert_eq!(schedule.wait_before(0), 0);
        assert_eq!(schedule.wait_before(1), interval_ms);
        assert_eq!(schedule.wait_before(2), interval_ms);
        assert_eq!(schedule.wait_before(u64::MAX), interval_ms);
    }
}

#[test]
fn every_outcome_keeps_the_loop() {
    for outcome in [TickOutcome::Redrawn, TickOutcome::Unchanged, TickOutcome::Skipped] {
        assert!(outcome.keeps_loop());
    }
}
