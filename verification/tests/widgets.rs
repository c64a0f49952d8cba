use bar_widgets::config::WidgetSpec;
use bar_widgets::display::{DisplayedState, TickOutcome};
use bar_widgets::error::WidgetError;
use bar_widgets::ingest::{IngestPhase, Ingester};
use bar_widgets::scheduler::{ContentMode, LoopPlan, Schedule, TickSource};
use bar_widgets::widgets::button_widget;
use bar_widgets::widgets::button_widget::{ButtonAttachment, ButtonWidget};
use bar_widgets::widgets::label_widget;
use bar_widgets::widgets::label_widget::{LabelAttachment, LabelWidget};

fn label(text: &str, command: &str, update_rate: u64, listen: bool) -> LabelWidget {
    LabelWidget {
        tooltip: "tip".to_string(),
        tooltip_command: "tip-cmd".to_string(),
        text: text.to_string(),
        command: command.to_string(),
        update_rate,
        label: DisplayedState::new("shown".to_string(), "shown tip".to_string()),
        listen,
    }
}

fn button(command: &str, text_command: &str, update_rate: u64) -> ButtonWidget {
    ButtonWidget {
        tooltip: "tip".to_string(),
        tooltip_command: "tip-cmd".to_string(),
        command: command.to_string(),
        button: DisplayedState::new("Menu".to_string(), "shown tip".to_string()),
        update_rate,
        text_command: text_command.to_string(),
    }
}

fn command(text: &str) -> TickSource {
    TickSource::Command(text.to_string())
}

#[test]
fn static_label_never_schedules_content() {
    for (cmd, rate, listen) in [("", 500, false), ("date", 0, false), ("", 0, false), ("", 500, true), ("date", 0, true)] {
        let mut widget = label("Static text", cmd, rate, listen);
        assert_eq!(widget.mode(), ContentMode::Static);
        assert_eq!(widget.start_loop().content, None);
        assert_eq!(label_widget::start_label_loop(cmd.to_string(), rate, listen), None);
        let attachment = widget.add(100);
        assert!(attachment.is_static);
        assert_eq!(attachment.loops.content, None);
        assert_eq!(widget.label.current_text, "Static text");
        assert_eq!(widget.tick_label(Ok("dynamic".to_string())), TickOutcome::Skipped);
        assert_eq!(widget.label.current_text, "Static text");
    }
}

#[test]
fn label_add_shows_the_static_tooltip_and_keeps_dynamic_text() {
    let mut widget = label("unused", "date", 500, false);
    let attachment = widget.add(100);
    assert_eq!(
        attachment,
        LabelAttachment {
            is_static: false,
            stream: None,
            loops: LoopPlan {
                tooltip: Some(Schedule { interval_ms: 1000, source: command("tip-cmd") }),
                content: Some(Schedule { interval_ms: 500, source: command("date") }),
            },
        }
    );
    assert_eq!(widget.label, DisplayedState::new("shown".to_string(), "tip".to_string()));
    assert_eq!(widget.text, "unused");
    assert_eq!(widget.command, "date");
}

#[test]
fn listening_label_gets_a_reader_with_the_stream_rate() {
    let mut widget = label("", "tail -f log", 100, true);
    let attachment = widget.add(750);
    assert_eq!(
        attachment.stream,
        Some(Ingester { command: "tail -f log".to_string(), pace_ms: 750, phase: IngestPhase::Spawning })
    );
    assert_eq!(attachment.loops.content, Some(Schedule { interval_ms: 100, source: TickSource::Buffer }));
}

#[test]
fn listening_flag_alone_starts_the_reader() {
    let mut widget = label("Static text", "tail -f log", 0, true);
    let attachment = widget.add(750);
    assert!(attachment.is_static);
    assert!(attachment.stream.is_some());
    assert_eq!(attachment.loops.content, None);
}

#[test]
fn label_tooltip_loop_runs_every_second_whatever_the_update_rate() {
    for rate in [0, 1, 500, 1000, 60_000, u64::MAX] {
        let widget = label("", "date", rate, false);
        let expected = Some(Schedule { interval_ms: 1000, source: command("tip-cmd") });
        assert_eq!(label_widget::start_tooltip_loop(&widget), expected);
        assert_eq!(widget.start_loop().tooltip, expected);
    }
}

#[test]
fn label_without_tooltip_command_has_no_tooltip_loop() {
    let mut widget = label("", "date", 500, false);
    widget.tooltip_command = String::new();
    assert_eq!(label_widget::start_tooltip_loop(&widget), None);
    assert_eq!(widget.start_loop().tooltip, None);
    assert_eq!(widget.tick_tooltip(Ok("out".to_string())), TickOutcome::Skipped);
    assert_eq!(widget.label.current_tooltip, "shown tip");
}

#[test]
fn start_label_loop_picks_the_source_by_mode() {
    assert_eq!(
        label_widget::start_label_loop("date".to_string(), 250, false),
        Some(Schedule { interval_ms: 250, source: command("date") })
    );
    assert_eq!(
        label_widget::start_label_loop("date".to_string(), 250, true),
        Some(Schedule { interval_ms: 250, source: TickSource::Buffer })
    );
}

#[test]
fn label_ticks_by_mode() {
    let mut polling = label("", "date", 500, false);
    assert_eq!(polling.tick_label(Err(WidgetError::ExecutionFailed)), TickOutcome::Redrawn);
    assert_eq!(polling.label.current_text, "");

    let mut listening = label("", "tail", 500, true);
    assert_eq!(listening.tick_label(Err(WidgetError::BufferUnavailable)), TickOutcome::Skipped);
    assert_eq!(listening.label.current_text, "shown");
    assert_eq!(listening.tick_label(Ok("line".to_string())), TickOutcome::Redrawn);
    assert_eq!(listening.label.current_text, "line");
    assert_eq!(listening.label.current_tooltip, "shown tip");
}

#[test]
fn label_tooltip_tick_uses_the_prefix() {
    let mut widget = label("", "date", 500, false);
    assert_eq!(widget.tick_tooltip(Ok("42".to_string())), TickOutcome::Redrawn);
    assert_eq!(widget.label, DisplayedState::new("shown".to_string(), "tip42".to_string()));
    assert_eq!(widget.tick_tooltip(Ok("42".to_string())), TickOutcome::Unchanged);
}

#[test]
fn label_construct_fills_the_fields() {
    let spec = WidgetSpec {
        static_text: Some("Hello".to_string()),
        content_command: None,
        tooltip_prefix: Some("Tip".to_string()),
        tooltip_command: Some("uptime".to_string()),
        activation_command: Some("ignored".to_string()),
        update_rate_ms: 500,
        listen_mode: false,
    };
    assert_eq!(
        LabelWidget::construct(spec.clone()),
        LabelWidget {
            tooltip: "Tip".to_string(),
            tooltip_command: "uptime".to_string(),
            text: "Hello".to_string(),
            command: String::new(),
            update_rate: 500,
            label: DisplayedState::new("Hello".to_string(), "Tip".to_string()),
            listen: false,
        }
    );
    let dynamic = WidgetSpec { content_command: Some("date".to_string()), ..spec };
    let widget = LabelWidget::construct(dynamic);
    assert_eq!(widget.label, DisplayedState::new(String::new(), "Tip".to_string()));
    assert_eq!(widget.text, "Hello");
    assert_eq!(widget.command, "date");
}

#[test]
fn button_construct_fills_the_fields() {
    let spec = WidgetSpec {
        static_text: Some("Menu".to_string()),
        content_command: Some("date".to_string()),
        tooltip_prefix: None,
        tooltip_command: None,
        activation_command: Some("rofi".to_string()),
        update_rate_ms: 0,
        listen_mode: true,
    };
    assert_eq!(
        ButtonWidget::construct(spec.clone()),
        ButtonWidget {
            tooltip: String::new(),
            tooltip_command: String::new(),
            command: "rofi".to_string(),
            button: DisplayedState::new("Menu".to_string(), String::new()),
            update_rate: 0,
            text_command: "date".to_string(),
        }
    );
    let polled = ButtonWidget::construct(WidgetSpec { update_rate_ms: 250, ..spec });
    assert_eq!(polled.button.current_text, "");
    assert_eq!(polled.mode(), ContentMode::Polling);
}

#[test]
fn button_add_asks_for_a_click_handler_only_with_a_command() {
    let mut with_command = button("rofi", "date", 500);
    assert_eq!(
        with_command.add(),
        ButtonAttachment {
            click_command: Some("rofi".to_string()),
            loops: LoopPlan {
                tooltip: Some(Schedule { interval_ms: 1000, source: command("tip-cmd") }),
                content: Some(Schedule { interval_ms: 500, source: command("date") }),
            },
        }
    );
    assert_eq!(with_command.button, DisplayedState::new("Menu".to_string(), "tip".to_string()));

    let mut without_command = button("", "date", 500);
    assert_eq!(without_command.add().click_command, None);
}

#[test]
fn static_button_never_schedules_text() {
    for (cmd, rate) in [("", 500), ("date", 0), ("", 0)] {
        let mut widget = button("rofi", cmd, rate);
        assert_eq!(widget.mode(), ContentMode::Static);
        assert_eq!(button_widget::start_text_loop(cmd.to_string(), rate), None);
        assert_eq!(widget.start_loop().content, None);
        assert_eq!(widget.add().loops.content, None);
        assert_eq!(widget.tick_text(Ok("dynamic".to_string())), TickOutcome::Skipped);
        assert_eq!(widget.button.current_text, "Menu");
    }
}

#[test]
fn button_loops_follow_their_commands() {
    let mut widget = button("", "date", 250);
    widget.tooltip_command = String::new();
    assert_eq!(
        widget.start_loop(),
        LoopPlan { tooltip: None, content: Some(Schedule { interval_ms: 250, source: command("date") }) }
    );
    assert_eq!(widget.tick_tooltip(Ok("out".to_string())), TickOutcome::Skipped);
    assert_eq!(widget.button.current_tooltip, "shown tip");
    assert_eq!(
        button_widget::start_text_loop("date".to_string(), 250),
        Some(Schedule { interval_ms: 250, source: command("date") })
    );
    assert_eq!(
        button_widget::start_tooltip_loop("uptime".to_string()),
        Schedule { interval_ms: 1000, source: command("uptime") }
    );
}

#[test]
fn button_tooltip_loop_runs_every_second_whatever_the_update_rate() {
    for rate in [0, 1, 500, 1000, 60_000, u64::MAX] {
        let widget = button("", "date", rate);
        assert_eq!(
            widget.start_loop().tooltip,
            Some(Schedule { interval_ms: 1000, source: command("tip-cmd") })
        );
    }
}

#[test]
fn button_ticks_write_only_on_change() {
    let mut widget = button("", "date", 500);
    assert_eq!(widget.tick_text(Ok("Menu".to_string())), TickOutcome::Unchanged);
    assert_eq!(widget.tick_text(Ok("12:00".to_string())), TickOutcome::Redrawn);
    assert_eq!(widget.tick_text(Ok("12:00".to_string())), TickOutcome::Unchanged);
    assert_eq!(widget.tick_tooltip(Ok(" now".to_string())), TickOutcome::Redrawn);
    assert_eq!(widget.tick_tooltip(Ok(" now".to_string())), TickOutcome::Unchanged);
    assert_eq!(widget.button, DisplayedState::new("12:00".to_string(), "tip now".to_string()));
    assert_eq!(widget.tick_text(Err(WidgetError::ExecutionFailed)), TickOutcome::Redrawn);
    assert_eq!(widget.button.current_text, "");
}
