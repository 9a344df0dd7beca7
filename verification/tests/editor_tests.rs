//! The editing session: reversible actions, undo and redo.

use xbtved::action::{AddProgram, DeleteProgram, InsertProgram, PopProgram, SetName, SetSource};
use xbtved::editor::EdBuffer;
use xbtved::program::{Instruction, Program, Source};
use xbtved::schedule::Schedule;
use xbtved::tags::Tags;

fn plain_program(path: &str) -> Program {
    Program::new(
        Source::Pathname(path.to_string()),
        Tags::new(),
        vec![Instruction::Play(0, 0)],
    )
}

#[test]
fn add_program_scenario_with_undo_and_redo() {
    // A schedule with zero programs named Example; one applied AddProgram,
    // then an undo, then a redo.
    let sched = Schedule::new("Example", Vec::new());
    let mut buffer = EdBuffer::from_schedule(&sched);
    let p1 = plain_program("first");

    buffer.apply(AddProgram::new(&p1)).unwrap();
    assert_eq!(buffer.get_schedule().programs_len(), 1);
    assert_eq!(buffer.get_schedule().programs(), vec![p1.clone()]);

    buffer.undo();
    assert_eq!(buffer.get_schedule().programs_len(), 0);

    buffer.redo();
    assert_eq!(buffer.get_schedule().programs_len(), 1);
    assert_eq!(buffer.get_schedule().programs(), vec![p1]);
}

#[test]
fn a_run_of_actions_fully_undone_restores_the_schedule() {
    let mut buffer = EdBuffer::from_schedule(&Schedule::new("start", Vec::new()));
    let before = buffer.get_schedule().clone();

    let a = plain_program("a");
    let b = plain_program("b");
    buffer.apply(AddProgram::new(&a)).unwrap();
    buffer.apply(AddProgram::new(&b)).unwrap();
    buffer.apply(SetName::new(&buffer, "renamed")).unwrap();
    let del = DeleteProgram::new(&buffer, 0).unwrap();
    buffer.apply(del).unwrap();

    buffer.undo();
    buffer.undo();
    buffer.undo();
    buffer.undo();

    assert_eq!(*buffer.get_schedule(), before);
    assert!(buffer.is_undo_buffer_empty());
}

#[test]
fn undo_then_redo_restores_the_later_state() {
    let mut buffer = EdBuffer::from_schedule(&Schedule::new("s", Vec::new()));
    buffer.apply(AddProgram::new(&plain_program("a"))).unwrap();
    buffer.apply(AddProgram::new(&plain_program("b"))).unwrap();
    let after = buffer.get_schedule().clone();

    buffer.undo();
    buffer.undo();
    buffer.redo();
    buffer.redo();

    assert_eq!(*buffer.get_schedule(), after);
}

#[test]
fn apply_clears_the_redo_stack() {
    let mut buffer = EdBuffer::from_schedule(&Schedule::new("s", Vec::new()));
    buffer.apply(AddProgram::new(&plain_program("a"))).unwrap();
    buffer.undo();
    assert!(!buffer.is_redo_buffer_empty());

    buffer.apply(AddProgram::new(&plain_program("b"))).unwrap();
    assert!(buffer.is_redo_buffer_empty());
    let state = buffer.get_schedule().clone();

    // The redo after a fresh apply is a no-op.
    buffer.redo();
    assert_eq!(*buffer.get_schedule(), state);
}

#[test]
fn undo_and_redo_on_empty_stacks_are_no_ops() {
    let mut buffer = EdBuffer::from_schedule(&Schedule::new("s", Vec::new()));
    let state = buffer.get_schedule().clone();
    buffer.undo();
    buffer.redo();
    assert_eq!(*buffer.get_schedule(), state);
}

#[test]
fn action_factories_validate_their_preconditions() {
    let empty = EdBuffer::from_schedule(&Schedule::new("s", Vec::new()));
    assert!(PopProgram::new(&empty).is_err());
    assert!(DeleteProgram::new(&empty, 0).is_err());
    assert!(SetSource::new(&empty, &Source::Pathname("p".to_string())).is_err());

    let mut buffer = EdBuffer::from_schedule(&Schedule::new("s", Vec::new()));
    buffer.apply(AddProgram::new(&plain_program("a"))).unwrap();
    assert!(PopProgram::new(&buffer).is_ok());
    assert!(DeleteProgram::new(&buffer, 0).is_ok());
    assert!(DeleteProgram::new(&buffer, 1).is_err());
}

#[test]
fn insert_program_out_of_range_fails_and_leaves_the_schedule() {
    let mut buffer = EdBuffer::from_schedule(&Schedule::new("s", Vec::new()));
    let state = buffer.get_schedule().clone();
    let bad = InsertProgram::new(&plain_program("a"), 5);
    assert!(buffer.apply(bad).is_err());
    assert_eq!(*buffer.get_schedule(), state);
}

#[test]
fn set_source_retargets_the_selected_program() {
    let sched = Schedule::new(
        "s",
        vec![plain_program("a"), plain_program("b")],
    );
    // The cursor starts on the last program.
    let mut buffer = EdBuffer::from_schedule(&sched);
    let novo = Source::URL("http://example/x".to_string());
    let act = SetSource::new(&buffer, &novo).unwrap();
    buffer.apply(act).unwrap();
    let p = buffer.get_program_at(1).unwrap();
    assert_eq!(p.get_url(), Some("http://example/x"));

    buffer.undo();
    let p = buffer.get_program_at(1).unwrap();
    assert_eq!(p.get_path(), Some("b"));
}

#[test]
fn save_needs_an_assigned_path() {
    let mut buffer = EdBuffer::from_schedule(&Schedule::new("s", Vec::new()));
    assert!(buffer.save_text().is_err());
    buffer.set_path("out.sched");
    let text = buffer.save_text().unwrap();
    assert_eq!(text, buffer.get_schedule().to_text());
}

#[test]
fn buffer_paths_and_modified_flag() {
    let mut buffer = EdBuffer::from_schedule(&Schedule::new("s", Vec::new()));
    assert!(buffer.get_path().is_none());
    assert!(!buffer.modified());
    buffer.set_path("out.sched");
    assert_eq!(buffer.get_path(), Some("out.sched"));
    buffer.apply(AddProgram::new(&plain_program("a"))).unwrap();
    assert!(buffer.modified());
    buffer.mark_saved();
    assert!(!buffer.modified());
}
