use term_clock::clock::{
    display_text, label_format, label_text, time_format, ClockConfig, WallClock,
};
use term_clock::color::DisplayColor;
use term_clock::frame::{build_frame, decide, tick, FrameError, FrameStyle, TurnOutcome};
use term_clock::layout::LayoutError;
use term_clock::render::DrawCommand;
use term_clock::symbols::resolve_symbols;

fn afternoon() -> WallClock {
    WallClock {
        year: 2026,
        month: 10,
        day: 27,
        hour: 14,
        minute: 5,
        second: 0,
        nanosecond: 0,
        utc_offset_seconds: 3600,
    }
}

fn config(stopwatch: bool, twelve_hour: bool, seconds: bool) -> ClockConfig {
    ClockConfig { stopwatch, twelve_hour, seconds, label_format: None }
}

fn style(center: bool) -> FrameStyle {
    FrameStyle { center, fill: '#', color: DisplayColor { red: 255, green: 255, blue: 255 } }
}

#[test]
fn time_formats() {
    assert_eq!(time_format(false, false), "%H:%M");
    assert_eq!(time_format(true, false), "%I:%M");
    assert_eq!(time_format(false, true), "%H:%M:%S");
    assert_eq!(time_format(true, true), "%I:%M:%S");
}

#[test]
fn label_formats() {
    assert_eq!(label_format(false, false, false), "%d.%m.%Y");
    assert_eq!(label_format(false, true, true), "%d.%m.%Y [%p]");
    assert_eq!(label_format(true, false, true), "%d.%m.%Y %H:%M:%S");
    assert_eq!(label_format(true, true, false), "%d.%m.%Y %I:%M [%p]");
}

#[test]
fn clock_of_the_afternoon() {
    let display = display_text(&config(false, false, false), &afternoon(), 0).unwrap();
    assert_eq!(display, "14:05");
    let ids = resolve_symbols(&display).unwrap();
    assert_eq!(ids, vec![1, 4, 10, 0, 5]);
    assert_eq!(term_clock::symbols::count_colons(&ids), 1);
    assert_eq!(term_clock::layout::glyph_block_width(&ids), Some(35));
}

#[test]
fn clock_with_seconds_and_twelve_hours() {
    assert_eq!(display_text(&config(false, false, true), &afternoon(), 0).unwrap(), "14:05:00");
    assert_eq!(display_text(&config(false, true, false), &afternoon(), 0).unwrap(), "02:05");
    assert_eq!(display_text(&config(false, true, true), &afternoon(), 0).unwrap(), "02:05:00");
}

#[test]
fn stopwatch_at_the_start() {
    assert_eq!(display_text(&config(true, false, false), &afternoon(), 0).unwrap(), "00:00:00");
}

#[test]
fn stopwatch_ignores_the_wall_clock() {
    let no_moment = WallClock { month: 13, ..afternoon() };
    assert_eq!(display_text(&config(true, true, true), &no_moment, 3661).unwrap(), "01:01:01");
    assert_eq!(display_text(&config(false, false, false), &no_moment, 3661), None);
}

#[test]
fn labels() {
    assert_eq!(label_text(&config(false, false, false), &afternoon()).unwrap(), "27.10.2026");
    assert_eq!(label_text(&config(false, true, false), &afternoon()).unwrap(), "27.10.2026 [PM]");
    assert_eq!(
        label_text(&config(true, false, true), &afternoon()).unwrap(),
        "27.10.2026 14:05:00"
    );
    assert_eq!(
        label_text(&config(true, true, false), &afternoon()).unwrap(),
        "27.10.2026 02:05 [PM]"
    );
}

#[test]
fn custom_label_is_used_as_it_stands() {
    let custom = ClockConfig {
        stopwatch: true,
        twelve_hour: true,
        seconds: true,
        label_format: Some("%Y/%m/%d %z".to_string()),
    };
    assert_eq!(label_text(&custom, &afternoon()).unwrap(), "2026/10/27 +0100");
}

#[test]
fn refused_format_and_moments_that_are_none() {
    let custom = ClockConfig { label_format: Some("%Q".to_string()), ..config(false, false, false) };
    assert_eq!(label_text(&custom, &afternoon()), None);
    let plain = config(false, false, false);
    assert_eq!(label_text(&plain, &WallClock { day: 31, month: 2, ..afternoon() }), None);
    assert_eq!(label_text(&plain, &WallClock { hour: 24, ..afternoon() }), None);
    assert_eq!(label_text(&plain, &WallClock { utc_offset_seconds: 86_400, ..afternoon() }), None);
}

#[test]
fn frame_of_a_turn() {
    let frame = tick(&config(false, false, false), style(false), &afternoon(), 0, 80, 24).unwrap();
    assert_eq!(frame.len(), 9);
    assert_eq!(frame[0], DrawCommand::ClearScreen);
    assert_eq!(frame[1], DrawCommand::HideCursor);
    assert_eq!(
        frame[2],
        DrawCommand::Text {
            x: 1,
            y: 1,
            color: style(false).color,
            text: "     ## ##   ##     ####### #######".to_string()
        }
    );
    assert_eq!(
        frame[7],
        DrawCommand::Text {
            x: 12,
            y: 7,
            color: style(false).color,
            text: "27.10.2026".to_string()
        }
    );
    assert_eq!(frame[8], DrawCommand::Flush);
}

#[test]
fn centered_stopwatch_turn() {
    let frame = tick(&config(true, false, false), style(true), &afternoon(), 59, 100, 30).unwrap();
    match &frame[4] {
        DrawCommand::Text { x, y, text, .. } => {
            assert_eq!((*x, *y), (23, 15));
            assert_eq!(text.chars().count(), 55);
        }
        other => panic!("no text: {:?}", other),
    }
    match &frame[7] {
        DrawCommand::Text { x, y, text, .. } => {
            assert_eq!((*x, *y), (42, 19));
            assert_eq!(text, "27.10.2026 14:05");
        }
        other => panic!("no text: {:?}", other),
    }
}

#[test]
fn turn_without_text() {
    let custom = ClockConfig { label_format: Some("%Q".to_string()), ..config(false, false, false) };
    assert_eq!(tick(&custom, style(false), &afternoon(), 0, 80, 24), Err(FrameError::NoText));
}

#[test]
fn frame_errors() {
    match build_frame("12-30", "x", style(false), 80, 24) {
        Err(FrameError::Symbol(e)) => {
            assert_eq!(e.symbol, '-');
            assert_eq!(e.position, 2);
            assert_eq!(e.text, "12-30");
        }
        other => panic!("no symbol error: {:?}", other),
    }
    assert_eq!(
        build_frame("12:30", "x", style(true), 20, 24),
        Err(FrameError::Layout(LayoutError::BlockTooWide))
    );
    assert_eq!(
        build_frame("1", "a label of many cells", style(false), 80, 24),
        Err(FrameError::Layout(LayoutError::LabelTooWide))
    );
    assert_eq!(
        build_frame("12:30", "x", style(true), 80, 2),
        Err(FrameError::Layout(LayoutError::TerminalTooShort))
    );
}

#[test]
fn label_cells_are_bytes() {
    let frame = build_frame("12:30", "été", style(false), 80, 24).unwrap();
    match &frame[7] {
        DrawCommand::Text { x, .. } => assert_eq!(*x, 17 - 2),
        other => panic!("no text: {:?}", other),
    }
}

#[test]
fn outcomes_of_a_turn() {
    let drawn = decide(build_frame("1", "", style(false), 80, 24));
    match drawn {
        TurnOutcome::Draw(frame) => assert_eq!(frame.len(), 9),
        other => panic!("no frame: {:?}", other),
    }
    assert_eq!(decide(build_frame("12:30", "x", style(true), 20, 24)), TurnOutcome::Skip);
    assert_eq!(
        decide(build_frame("12 30", "x", style(true), 80, 24)),
        TurnOutcome::Halt("An unexpected symbol ' ' in \"12 30\"".to_string())
    );
    assert_eq!(
        decide(Err(FrameError::NoText)),
        TurnOutcome::Halt("the time could not be formatted".to_string())
    );
}

#[test]
fn stopwatch_turn_never_meets_a_foreign_character() {
    for elapsed in [0u64, 59, 3661, 359_999, 360_000, u64::MAX] {
        let r = tick(&config(true, false, true), style(false), &afternoon(), elapsed, 400, 50);
        assert!(!matches!(r, Err(FrameError::Symbol(_))));
    }
}
