use tapedeck::parser::parse_roll_content;
use tapedeck::script::{ClickType, Engine, ParseErrorKind, ScriptCommand};

#[test]
fn tui_example_parses() {
    let s = parse_roll_content(
        "# examples/test_tui.roll\nSet Engine Auto\nSet Output \"test_tui.gif\"\nSet FPS 15\n\nType \"echo Hello Tapedeck\"\nEnter\nSleep 1s\n",
    )
    .unwrap();
    assert_eq!(s.engine, Some(Engine::Auto));
    assert_eq!(s.output.as_deref(), Some("test_tui.gif"));
    assert_eq!(s.fps, Some(15));
    assert_eq!(
        s.commands,
        vec![
            ScriptCommand::Type("echo Hello Tapedeck".to_owned()),
            ScriptCommand::Key("Enter".to_owned(), 1),
            ScriptCommand::Sleep(1000),
        ]
    );
}

#[test]
fn gui_example_parses() {
    let s = parse_roll_content(
        "Set Engine Native\nWaitWindow \"Obsidian\" timeout=10s\nMouseMove 500 300 speed=smooth\nClick Left\nShortcut \"Ctrl+S\"\nOptimize AV1 encoder=av1_vaapi\nKey Down 3\nSleep 500ms\n",
    )
    .unwrap();
    assert_eq!(s.engine, Some(Engine::Native));
    assert_eq!(
        s.commands,
        vec![
            ScriptCommand::WaitWindow("Obsidian".to_owned(), 10_000),
            ScriptCommand::MouseMove(500, 300),
            ScriptCommand::Click(ClickType::Left),
            ScriptCommand::Shortcut("Ctrl+S".to_owned()),
            ScriptCommand::Optimize("AV1".to_owned(), vec![("encoder".to_owned(), "av1_vaapi".to_owned())]),
            ScriptCommand::Key("Down".to_owned(), 3),
            ScriptCommand::Sleep(500),
        ]
    );
}

#[test]
fn legacy_forms_parse() {
    let s = parse_roll_content("Title \"Demo\"\nMode GUI\nTerminal \"zsh\"\nOutput \"a.webm\"\nFPS 24\n").unwrap();
    assert_eq!(s.title.as_deref(), Some("Demo"));
    assert_eq!(s.engine, Some(Engine::Native));
    assert_eq!(s.shell.as_deref(), Some("zsh"));
    assert_eq!(s.output.as_deref(), Some("a.webm"));
    assert_eq!(s.fps, Some(24));
}

#[test]
fn errors_name_the_line() {
    let e = parse_roll_content("Type \"a\"\nNotARealCommand x\n").unwrap_err();
    assert_eq!(e.line, 2);
    assert_eq!(e.kind, ParseErrorKind::Unknown("NotARealCommand".to_owned()));
    assert_eq!(e.message(), "第 2 行：未知的指令 'NotARealCommand'");
    let e = parse_roll_content("Type\n").unwrap_err();
    assert_eq!(e.kind, ParseErrorKind::Syntax);
    let e = parse_roll_content("Set FPS fast\n").unwrap_err();
    assert!(e.message().contains("必須是數字"));
}

#[test]
fn comments_and_blank_lines_change_nothing() {
    let plain = parse_roll_content("Type \"a\"\nSleep 2\n").unwrap();
    let commented = parse_roll_content("# intro\n\nType \"a\"\n   # note\nSleep 2\n\n").unwrap();
    assert_eq!(plain, commented);
}
