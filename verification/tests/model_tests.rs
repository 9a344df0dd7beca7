//! The data model: sources, instructions, programs, schedules and tags.

use xbtved::parse::ParseError;
use xbtved::program::{Instruction, Program, Source};
use xbtved::schedule::Schedule;
use xbtved::tags::{Date, MediaType, TagType, Tags, VideoType};

#[test]
fn source_accessors_follow_the_variant() {
    let p = Source::Pathname("a/b".to_string());
    let u = Source::URL("http://x".to_string());
    assert!(p.is_path() && !p.is_url());
    assert!(u.is_url() && !u.is_path());
    assert_eq!(p.path(), Some("a/b"));
    assert_eq!(p.url(), None);
    assert_eq!(u.url(), Some("http://x"));
}

#[test]
fn instruction_accessors_follow_the_variant() {
    let play = Instruction::Play(3, 9);
    assert!(play.is_play() && !play.is_subprogram());
    assert_eq!(play.start_time(), Some(3));
    assert_eq!(play.duration(), Some(9));
    assert_eq!(play.start_and_duration(), Some((3, 9)));
    assert!(play.subprogram().is_none());

    let sub = Instruction::SubProgram(Box::new(Program::example()));
    assert!(sub.is_subprogram());
    assert!(sub.start_time().is_none());
}

#[test]
fn program_cursor_moves_and_clamps() {
    let mut p = Program::new(
        Source::Pathname("x".to_string()),
        Tags::new(),
        vec![Instruction::Play(0, 0), Instruction::Play(1, 1)],
    );
    // The cursor starts on the last instruction.
    assert_eq!(p.get_current_instr().unwrap().start_time(), Some(1));
    p.prev_instr();
    assert_eq!(p.get_current_instr().unwrap().start_time(), Some(0));
    p.prev_instr();
    assert_eq!(p.get_current_instr().unwrap().start_time(), Some(0));
    p.next_instr();
    assert_eq!(p.get_current_instr().unwrap().start_time(), Some(1));
    assert!(p.set_current_instr_idx(2).is_err());
    assert!(p.set_current_instr_idx(0).is_ok());
}

#[test]
fn program_instruction_edits() {
    let mut p = Program::new(Source::Pathname("x".to_string()), Tags::new(), Vec::new());
    assert!(p.get_current_instr().is_none());
    p.push_instruction(&Instruction::Play(1, 0));
    p.push_instruction(&Instruction::Play(2, 0));
    assert_eq!(p.get_instrs().len(), 2);
    assert!(p.insert_instruction(1, &Instruction::Play(9, 9)).is_ok());
    assert!(p.insert_instruction(9, &Instruction::Play(9, 9)).is_err());
    assert_eq!(p.get_instr(1).unwrap().start_time(), Some(9));
    let removed = p.remove_instruction(1).unwrap();
    assert_eq!(removed.start_time(), Some(9));
    assert!(p.remove_instruction(5).is_err());
    let last = p.pop_instruction().unwrap();
    assert_eq!(last.start_time(), Some(2));
}

#[test]
fn program_location_and_tags_edits() {
    let mut p = Program::example();
    assert!(p.is_location_path());
    p.set_url("http://y");
    assert!(p.is_location_url());
    assert_eq!(p.get_url(), Some("http://y"));
    p.set_path("z");
    assert_eq!(p.get_path(), Some("z"));
    p.set_location(&Source::URL("http://w".to_string()));
    assert!(p.get_location().is_url());

    let mut t = Tags::new();
    t.genre = Some("g".to_string());
    p.set_tags(&t);
    assert_eq!(p.get_tags().genre, Some("g".to_string()));
    p.delete_all_tags();
    assert_eq!(p.get_tags().genre, None);
}

#[test]
fn schedule_program_edits_and_cursor() {
    let mut s = Schedule::new("n", Vec::new());
    assert_eq!(s.get_name(), "n".to_string());
    assert_eq!(s.name_ref(), "n");
    assert!(s.last_program().is_none());
    assert!(s.get_program().is_none());
    assert!(s.pop_program().is_none());
    assert!(s.delete_program(0).is_err());

    let a = Program::example();
    s.add_program(&a);
    // Appending to an empty schedule selects the new program.
    assert_eq!(s.get_current_program_idx(), Some(0));
    assert_eq!(s.programs_len(), 1);
    // Inserting at or past the end is an error: appending is add_program.
    assert!(s.insert_program(1, &a).is_err());
    assert!(s.insert_program(5, &a).is_err());
    assert!(s.insert_program(0, &a).is_ok());
    assert_eq!(s.programs_len(), 2);
    assert!(s.delete_program(0).is_ok());
    assert!(s.set_current_program_idx(0).is_ok());
    assert!(s.set_current_program_idx(1).is_err());
    s.next_prog();
    assert_eq!(s.get_current_program_idx(), Some(0));
    s.prev_instr();
    assert_eq!(s.get_current_program_idx(), Some(0));
    s.set_name("renamed");
    assert_eq!(s.get_name(), "renamed".to_string());

    assert!(s.set_location_at(0, &Source::URL("u".to_string())).is_ok());
    assert!(s.get_program_at(0).unwrap().is_location_url());
    assert!(s.set_location_at(3, &Source::URL("u".to_string())).is_err());
}

#[test]
fn example_schedule_has_one_example_program() {
    let s = Schedule::example();
    assert_eq!(s.get_name(), "Example".to_string());
    assert_eq!(s.programs_len(), 1);
    assert_eq!(s.get_program_at(0).unwrap().get_path(), Some("example"));
}

#[test]
fn tag_coercions_accept_and_reject() {
    let mut t = Tags::new();
    assert!(t.modify_tag(&TagType::Title, "T").is_ok());
    assert_eq!(t.title, Some("T".to_string()));

    assert!(t.modify_tag(&TagType::Season, "200").is_ok());
    assert_eq!(t.season, Some(200));
    assert!(matches!(t.modify_tag(&TagType::Season, "300"), Err(ParseError::BadToken(_))));
    assert!(t.modify_tag(&TagType::Season, "five").is_err());

    assert!(t.modify_tag(&TagType::MediaType, "Live Action").is_ok());
    assert_eq!(t.media_type, Some(MediaType::Video(VideoType::LiveAction)));
    assert!(t.modify_tag(&TagType::MediaType, "mystery").is_err());

    assert!(t.modify_tag(&TagType::Runtime, "2h").is_ok());
    assert_eq!(t.runtime, Some(7200));
    assert!(t.modify_tag(&TagType::Runtime, "90m").is_ok());
    assert_eq!(t.runtime, Some(5400));
    assert!(t.modify_tag(&TagType::Runtime, "s").is_err());

    assert!(t.modify_tag(&TagType::Cast, "A,B,C").is_ok());
    assert_eq!(
        t.cast,
        Some(vec!["A".to_string(), "B".to_string(), "C".to_string()])
    );

    assert!(t.modify_tag(&TagType::Airdate, "1999-12-31").is_ok());
    assert!(t.modify_tag(&TagType::Airdate, "1999-31-12").is_err());
    assert!(t.modify_tag(&TagType::Airdate, "99-12-31").is_err());
}

#[test]
fn modify_multi_accepts_only_list_tags() {
    let mut t = Tags::new();
    let list = vec!["en".to_string(), "jp".to_string()];
    assert!(t.modify_multi(&list, &TagType::AudioTracks).is_ok());
    assert_eq!(t.audio_tracks, Some(list.clone()));
    assert!(t.modify_multi(&list, &TagType::Title).is_err());
}

#[test]
fn dates_are_calendar_checked() {
    assert!(Date::new(2016, 2, 29).is_some());
    assert!(Date::new(2015, 2, 29).is_none());
    assert!(Date::new(2000, 2, 29).is_some());
    assert!(Date::new(1900, 2, 29).is_none());
    assert!(Date::new(2020, 13, 1).is_none());
    assert!(Date::new(2020, 0, 1).is_none());
    assert!(Date::new(2020, 4, 31).is_none());
}

#[test]
fn error_messages_render() {
    assert_eq!(
        ParseError::UnbalancedParens.message(),
        "Unbalanced parens!".to_string()
    );
    assert!(ParseError::BadToken("x".to_string()).message() == "x".to_string());
}

#[test]
fn empty_schedule_rejects_every_insert_index() {
    let mut s = Schedule::new("n", Vec::new());
    assert!(s.insert_program(0, &Program::example()).is_err());
}

#[test]
fn pop_keeps_the_cursor_inside_the_list() {
    let mut s = Schedule::new(
        "n",
        vec![Program::example(), Program::example(), Program::example()],
    );
    // The cursor starts on the last program and clamps as it is popped.
    assert_eq!(s.get_current_program_idx(), Some(2));
    s.pop_program();
    assert_eq!(s.get_current_program_idx(), Some(1));
    s.pop_program();
    assert_eq!(s.get_current_program_idx(), Some(0));
    s.pop_program();
    assert_eq!(s.get_current_program_idx(), None);
}
