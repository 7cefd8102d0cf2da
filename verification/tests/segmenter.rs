//! The HyperTalk segmenter.

use hc_decode::hypertalk::Command;
use hc_decode::hypertalk::Script;

#[test]
fn handler_block_with_one_command() {
    let s = Script::parse(String::from("on mouseUp\nput 1 into x\nend mouseUp"));
    assert_eq!(s.commands.len(), 1);
    match &s.commands[0] {
        Command::Block(b) => {
            assert_eq!(b.message, "mouseUp");
            assert_eq!(b.commands.len(), 1);
            match &b.commands[0] {
                Command::Unknown(line) => assert_eq!(line, "put 1 into x"),
                _ => panic!("expected an unknown command"),
            }
        },
        _ => panic!("expected a handler block"),
    }
}

#[test]
fn uppercase_token_is_an_external_function() {
    let s = Script::parse(String::from("DoThing a b"));
    assert_eq!(s.commands.len(), 1);
    match &s.commands[0] {
        Command::ExternalFunction(f) => {
            assert_eq!(f.func_name, "DoThing");
            assert_eq!(f.args, vec![String::from("a"), String::from("b")]);
        },
        _ => panic!("expected an external function"),
    }
}

#[test]
fn global_lines_are_dropped() {
    let s = Script::parse(String::from("global x\nbeep"));
    assert_eq!(s.commands.len(), 1);
    match &s.commands[0] {
        Command::Unknown(line) => assert_eq!(line, "beep"),
        _ => panic!("expected an unknown command"),
    }
}

#[test]
fn carriage_returns_split_lines() {
    let s = Script::parse(String::from("beep\u{000D}flash"));
    assert_eq!(s.commands.len(), 2);
    match (&s.commands[0], &s.commands[1]) {
        (Command::Unknown(a), Command::Unknown(b)) => {
            assert_eq!(a, "beep");
            assert_eq!(b, "flash");
        },
        _ => panic!("expected two unknown commands"),
    }
}

#[test]
fn soft_continuation_joins_lines() {
    let s = Script::parse(String::from("put 1\u{00C2}\u{00AC}\ninto x"));
    assert_eq!(s.commands.len(), 1);
    match &s.commands[0] {
        Command::Unknown(line) => assert_eq!(line, "put 1 into x"),
        _ => panic!("expected one joined unknown command"),
    }
}

#[test]
fn commands_outside_handlers_stay_top_level() {
    let s = Script::parse(String::from("beep\non doIt\nflash\nend doIt\nbeep twice"));
    assert_eq!(s.commands.len(), 3);
    match &s.commands[0] {
        Command::Unknown(line) => assert_eq!(line, "beep"),
        _ => panic!("expected an unknown command first"),
    }
    match &s.commands[1] {
        Command::Block(b) => {
            assert_eq!(b.message, "doIt");
            assert_eq!(b.commands.len(), 1);
        },
        _ => panic!("expected the handler block second"),
    }
    match &s.commands[2] {
        Command::Unknown(line) => assert_eq!(line, "beep twice"),
        _ => panic!("expected an unknown command last"),
    }
}

#[test]
fn empty_script_yields_one_empty_unknown() {
    let s = Script::parse(String::new());
    assert_eq!(s.commands.len(), 1);
    match &s.commands[0] {
        Command::Unknown(line) => assert_eq!(line, ""),
        _ => panic!("expected an empty unknown command"),
    }
}
