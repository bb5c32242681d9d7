use std::sync::{Arc, Mutex};

use zenyx::chars::{from_chars, to_chars};
use zenyx::dispatch::{event_error, outcome_error, pass, ErrorPolicy, Evaluator, Event, Step};
use zenyx::error::EvalError;
use zenyx::handler::{Command, CommandManager};
use zenyx::input::{statement_bounds, tokenize_range, trim_bounds};
use zenyx::keyed::position;
use zenyx::script::{is_blank_text, ScriptRunner, ScriptState};

fn strings(items: &[&str]) -> Vec<String> {
    items.iter().map(|s| s.to_string()).collect()
}

struct Note {
    fails: bool,
    seen: Arc<Mutex<Vec<String>>>,
}

impl Command for Note {
    fn execute(&self, args: Option<Vec<String>>, depth: usize) -> Result<(), String> {
        self.seen.lock().unwrap().push(format!("{}:{:?}", depth, args));
        if self.fails {
            Err("no".to_string())
        } else {
            Ok(())
        }
    }

    fn undo(&self) {}

    fn redo(&self) {}

    fn get_description(&self) -> String {
        String::new()
    }

    fn get_name(&self) -> String {
        if self.fails { "bad".to_string() } else { "note".to_string() }
    }

    fn get_help(&self) -> String {
        String::new()
    }

    fn get_params(&self) -> String {
        String::new()
    }
}

fn noted() -> (CommandManager<dyn Command>, Arc<Mutex<Vec<String>>>) {
    let seen = Arc::new(Mutex::new(Vec::new()));
    let mut manager: CommandManager<dyn Command> = CommandManager::init();
    manager.add_command(Box::new(Note { fails: false, seen: seen.clone() }));
    manager.add_command(Box::new(Note { fails: true, seen: seen.clone() }));
    (manager, seen)
}

#[test]
fn characters_go_to_a_vector_and_back() {
    let v = to_chars("héllo wörld");
    assert_eq!(v.len(), 11);
    assert_eq!(v[1], 'é');
    assert_eq!(from_chars(&v, 0, 11), "héllo wörld");
    assert_eq!(from_chars(&v, 6, 11), "wörld");
    assert_eq!(from_chars(&v, 3, 3), "");
}

#[test]
fn trim_bounds_leave_out_the_white_space_at_both_ends() {
    let v = to_chars("  \techo hi \n");
    assert_eq!(trim_bounds(&v, 0, v.len()), (3, 10));
    assert_eq!(trim_bounds(&v, 4, 9), (4, 9));
    assert_eq!(trim_bounds(&v, 7, 11), (8, 10));
    let blank = to_chars(" \t ");
    assert_eq!(trim_bounds(&blank, 0, 3), (3, 3));
    assert_eq!(trim_bounds(&blank, 1, 1), (1, 1));
    let tight = to_chars("ab");
    assert_eq!(trim_bounds(&tight, 0, 2), (0, 2));
}

#[test]
fn statement_bounds_cut_at_every_separator() {
    assert_eq!(statement_bounds(&to_chars("ab;c\n;")), vec![(0, 2), (3, 4), (5, 5), (6, 6)]);
    assert_eq!(statement_bounds(&to_chars("")), vec![(0, 0)]);
    assert_eq!(statement_bounds(&to_chars("abc")), vec![(0, 3)]);
}

#[test]
fn tokenize_range_reads_a_part_of_the_text() {
    let v = to_chars("one two;three 'four five'");
    assert_eq!(tokenize_range(&v, 0, 7), strings(&["one", "two"]));
    assert_eq!(tokenize_range(&v, 8, v.len()), strings(&["three", "four five"]));
    assert_eq!(tokenize_range(&v, 3, 4), Vec::<String>::new());
}

#[test]
fn position_finds_the_first_of_equal_keys() {
    let keys = strings(&["a", "b", "a", "c"]);
    assert_eq!(position(&keys, &"a".to_string()), Some(0));
    assert_eq!(position(&keys, &"c".to_string()), Some(3));
    assert_eq!(position(&keys, &"d".to_string()), None);
    assert_eq!(position(&Vec::<String>::new(), &"a".to_string()), None);
}

#[test]
fn blank_texts_hold_only_white_space() {
    assert!(is_blank_text(""));
    assert!(is_blank_text(" \t\r\n\u{2003}"));
    assert!(!is_blank_text(" ; "));
    assert!(!is_blank_text("a"));
}

#[test]
fn no_arguments_are_passed_as_none() {
    assert_eq!(pass(Vec::new()), None);
    assert_eq!(pass(strings(&["a"])), Some(strings(&["a"])));
}

#[test]
fn every_event_but_a_success_is_an_error_for_a_single_command() {
    assert!(matches!(event_error(&Event::Skipped), Err(EvalError::EmptyStatement)));
    match event_error(&Event::NotFound { name: "x".to_string(), suggestion: Some("y".to_string()) }) {
        Err(EvalError::UnknownCommand { name, suggestion }) => {
            assert_eq!(name, "x");
            assert_eq!(suggestion, Some("y".to_string()));
        }
        other => panic!("unexpected: {:?}", other),
    }
    assert!(matches!(
        event_error(&Event::ArityMismatch { name: "x".to_string(), expected: 2, received: 3 }),
        Err(EvalError::ArityMismatch { expected: 2, received: 3, .. })
    ));
    assert!(event_error(&Event::Ran { name: "x".to_string(), ignored: 1, outcome: Ok(()) }).is_ok());
    match outcome_error(&"x".to_string(), &Err("broke".to_string())) {
        Err(EvalError::CommandFailed { name, message }) => {
            assert_eq!(name, "x");
            assert_eq!(message, "broke");
        }
        other => panic!("unexpected: {:?}", other),
    }
    assert!(outcome_error(&"x".to_string(), &Ok(())).is_ok());
}

#[test]
fn an_evaluator_hands_out_one_event_at_a_time() {
    let (manager, seen) = noted();
    let mut evaluator = Evaluator::new(&manager, "note a; nothing; note", ErrorPolicy::Continue);
    assert!(seen.lock().unwrap().is_empty());
    assert!(matches!(evaluator.advance(&manager, 2), Some(Event::Ran { outcome: Ok(()), .. })));
    assert_eq!(seen.lock().unwrap().len(), 1);
    assert!(matches!(evaluator.advance(&manager, 2), Some(Event::NotFound { .. })));
    assert!(matches!(evaluator.advance(&manager, 2), Some(Event::Ran { .. })));
    assert!(evaluator.advance(&manager, 2).is_none());
    assert!(evaluator.advance(&manager, 2).is_none());
    assert!(evaluator.finish().is_ok());
    assert_eq!(*seen.lock().unwrap(), strings(&["2:Some([\"a\"])", "2:None"]));
}

#[test]
fn an_evaluator_stops_at_a_failure_only_when_told_to() {
    let (manager, _) = noted();
    let mut script = Evaluator::new(&manager, "bad; note", ErrorPolicy::Abort);
    assert!(matches!(script.advance(&manager, 0), Some(Event::Ran { outcome: Err(_), .. })));
    assert!(script.advance(&manager, 0).is_none());
    assert!(matches!(script.finish(), Err(EvalError::CommandFailed { .. })));

    let mut line = Evaluator::new(&manager, "bad; note", ErrorPolicy::Continue);
    assert!(matches!(line.advance(&manager, 0), Some(Event::Ran { outcome: Err(_), .. })));
    assert!(matches!(line.advance(&manager, 0), Some(Event::Ran { outcome: Ok(()), .. })));
    assert!(line.advance(&manager, 0).is_none());
    assert!(matches!(line.finish(), Err(EvalError::CommandFailed { .. })));
}

#[test]
fn a_run_hands_out_the_evaluator_of_its_script() {
    let (manager, seen) = noted();
    let mut runner = ScriptRunner::new(4);
    runner.enter().unwrap();
    runner.validate("s.zensh").unwrap();
    runner.supply("s.zensh", Some("note x\nbad\nnote y".to_string())).unwrap();
    let (mut evaluator, depth) = runner.evaluator(&manager);
    assert_eq!(depth, 5);
    assert_eq!(runner.current_state(), ScriptState::Complete);
    let mut count = 0;
    while let Some(_) = evaluator.advance(&manager, depth) {
        count += 1;
    }
    assert_eq!(count, 2);
    assert_eq!(*seen.lock().unwrap(), strings(&["5:Some([\"x\"])", "5:None"]));
}

#[test]
fn a_single_step_ends_in_a_result() {
    let (manager, seen) = noted();
    assert!(manager.run_single(manager.decide("note", strings(&["a"])), 3).is_ok());
    match manager.run_single(manager.decide("bad", Vec::new()), 4) {
        Err(EvalError::CommandFailed { name, message }) => {
            assert_eq!(name, "bad");
            assert_eq!(message, "no");
        }
        other => panic!("unexpected: {:?}", other),
    }
    assert!(matches!(manager.run_single(Step::Skipped, 0), Err(EvalError::EmptyStatement)));
    assert!(matches!(
        manager.run_single(manager.decide("nothing", Vec::new()), 0),
        Err(EvalError::UnknownCommand { .. })
    ));
    assert_eq!(*seen.lock().unwrap(), strings(&["3:Some([\"a\"])", "4:None"]));
}

#[test]
fn a_step_can_be_run_alone() {
    let (manager, seen) = noted();
    let step = manager.decide("NOTE", strings(&["a", "b"]));
    assert!(matches!(&step, Step::Invoke { index: 0, ignored: 0, .. }));
    assert!(matches!(manager.run(step, 7), Event::Ran { outcome: Ok(()), .. }));
    let direct = manager.dispatch("bad".to_string(), Vec::new());
    assert!(matches!(manager.run(direct, 0), Event::Ran { outcome: Err(_), .. }));
    assert!(matches!(manager.run(Step::Skipped, 0), Event::Skipped));
    assert_eq!(*seen.lock().unwrap(), strings(&["7:Some([\"a\", \"b\"])", "0:None"]));
}

#[test]
fn names_are_completed_from_the_cursor_on() {
    let (mut manager, _) = noted();
    manager.add_command(Box::new(Note { fails: false, seen: Arc::new(Mutex::new(Vec::new())) }));
    manager.add_alias("nothing", "note").unwrap();
    // The commands are `note` and `bad`; aliases are not completed.
    assert_eq!(zenyx::completion::complete(&manager, "no", 2), strings(&["te"]));
    assert_eq!(zenyx::completion::complete(&manager, "no", 0), strings(&["note"]));
    assert_eq!(zenyx::completion::complete(&manager, "", 0), strings(&["note", "bad"]));
    assert_eq!(zenyx::completion::complete(&manager, "b", 1), strings(&["ad"]));
    assert_eq!(zenyx::completion::complete(&manager, "note", 4), strings(&[""]));
    assert_eq!(zenyx::completion::complete(&manager, "notes", 5), Vec::<String>::new());
    assert_eq!(zenyx::completion::complete(&manager, "x", 1), Vec::<String>::new());
}

#[test]
fn a_prefix_is_a_beginning() {
    let name = to_chars("clear");
    assert!(zenyx::completion::has_prefix(&name, &to_chars("")));
    assert!(zenyx::completion::has_prefix(&name, &to_chars("cle")));
    assert!(zenyx::completion::has_prefix(&name, &to_chars("clear")));
    assert!(!zenyx::completion::has_prefix(&name, &to_chars("clears")));
    assert!(!zenyx::completion::has_prefix(&name, &to_chars("lear")));
}
