use kokoroxide::session::{numbered_output_path, numbered_step, read_command, InputCommand, SessionAction};
use kokoroxide::text::{format_decimal, format_decimal_width4, trim, underscore_separators};
use kokoroxide::InteractiveTTS;

#[test]
fn trim_removes_unicode_whitespace() {
    assert_eq!(trim("  hello world \t\n"), "hello world");
    assert_eq!(trim("\u{3000}\u{a0}ʤ ɑ\u{2009}"), "ʤ ɑ");
    assert_eq!(trim(" \r\n "), "");
    assert_eq!(trim(""), "");
    assert_eq!(trim("x"), "x");
}

#[test]
fn decimal_formatting() {
    assert_eq!(format_decimal(0), "0");
    assert_eq!(format_decimal(7), "7");
    assert_eq!(format_decimal(1234567), "1234567");
    assert_eq!(format_decimal(usize::MAX), usize::MAX.to_string());
    assert_eq!(format_decimal_width4(0), "0000");
    assert_eq!(format_decimal_width4(42), "0042");
    assert_eq!(format_decimal_width4(9999), "9999");
    assert_eq!(format_decimal_width4(12345), "12345");
}

#[test]
fn separators_become_underscores() {
    assert_eq!(underscore_separators("kokoro g2p - japanese anime"), "kokoro_g2p___japanese_anime");
    assert_eq!(underscore_separators("ɑ-b c"), "ɑ_b_c");
}

#[test]
fn commands_of_typed_lines() {
    assert!(matches!(read_command(""), InputCommand::Skip));
    assert!(matches!(read_command("   \t"), InputCommand::Skip));
    assert!(matches!(read_command("quit"), InputCommand::Quit));
    assert!(matches!(read_command("  EXIT \n"), InputCommand::Quit));
    assert!(matches!(read_command("Q"), InputCommand::Quit));
    match read_command("  Hello there \n") {
        InputCommand::Speak(text) => assert_eq!(text, "Hello there"),
        other => panic!("unexpected {:?}", other),
    }
    match read_command("quite") {
        InputCommand::Speak(text) => assert_eq!(text, "quite"),
        other => panic!("unexpected {:?}", other),
    }
}

#[test]
fn numbered_session_steps() {
    assert_eq!(numbered_output_path(1), "interactive_tts_0001.wav");
    assert_eq!(numbered_output_path(12345), "interactive_tts_12345.wav");
    let (count, action) = numbered_step(0, " first ");
    assert_eq!(count, 1);
    match action {
        SessionAction::Generate { text, output_path } => {
            assert_eq!(text, "first");
            assert_eq!(output_path, "interactive_tts_0001.wav");
        }
        other => panic!("unexpected {:?}", other),
    }
    let (count, action) = numbered_step(count, "");
    assert_eq!(count, 1);
    assert!(matches!(action, SessionAction::Continue));
    let (count, action) = numbered_step(count, "exit");
    assert_eq!(count, 1);
    assert!(matches!(action, SessionAction::Stop));
}

#[test]
fn interactive_session_counts_generations() {
    let mut session = InteractiveTTS::from_parts("engine", "voice");
    assert_eq!(session.output_counter(), 0);
    assert_eq!(session.get_stats(), "Total generations: 0");
    match session.step("Hello") {
        SessionAction::Generate { text, output_path } => {
            assert_eq!(text, "Hello");
            assert_eq!(output_path, "interactive_tts.wav");
        }
        other => panic!("unexpected {:?}", other),
    }
    assert!(matches!(session.step("  "), SessionAction::Continue));
    assert!(matches!(session.step("again"), SessionAction::Generate { .. }));
    assert_eq!(session.output_counter(), 2);
    assert_eq!(session.get_stats(), "Total generations: 2");
    assert!(matches!(session.step("Quit"), SessionAction::Stop));
    assert_eq!(session.output_counter(), 2);
    let (engine, voice) = session.engine_and_voice();
    assert_eq!(*engine, "engine");
    assert_eq!(*voice, "voice");
    *engine = "other engine";
    let (engine, _) = session.engine_and_voice();
    assert_eq!(*engine, "other engine");
    assert_eq!(session.output_counter(), 2);
}

#[test]
fn numbered_outputs_are_distinct() {
    let names: Vec<String> = [0usize, 1, 9, 10, 99, 100, 999, 1000, 9999, 10000]
        .iter()
        .map(|n| numbered_output_path(*n))
        .collect();
    for i in 0..names.len() {
        for j in 0..names.len() {
            assert_eq!(i == j, names[i] == names[j]);
        }
    }
}

#[test]
fn session_counts_nonblank_lines_before_quit() {
    let lines = ["hello", "", "  ", "second", "Exit", "after quit", "more"];
    let mut session = InteractiveTTS::from_parts((), ());
    for line in lines.iter() {
        if matches!(session.step(line), SessionAction::Stop) {
            break;
        }
    }
    assert_eq!(session.output_counter(), 2);
    assert_eq!(session.get_stats(), "Total generations: 2");
}
