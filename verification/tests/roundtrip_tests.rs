//! Serialization and the round trip through the textual format.

use xbtved::parse::parse;
use xbtved::program::{Instruction, Program, Source};
use xbtved::schedule::Schedule;
use xbtved::tags::{Date, MediaType, Tags, VideoType};

fn full_tags() -> Tags {
    let mut t = Tags::new();
    t.title = Some("A Title".to_string());
    t.media_type = Some(MediaType::Video(VideoType::Anime));
    t.genre = Some("drama".to_string());
    t.series = Some("S".to_string());
    t.season = Some(2);
    t.episode = Some(13);
    t.album = Some("Al".to_string());
    t.track_no = Some(7);
    t.studio = Some("St".to_string());
    t.director = Some("D".to_string());
    t.artist = Some("Ar".to_string());
    t.composer = Some("C".to_string());
    t.cast = Some(vec!["One".to_string(), "Two".to_string()]);
    t.photographer = Some("P".to_string());
    t.year = Some(1987);
    t.airdate = Date::new(2014, 11, 15).map(Some).unwrap_or(None);
    t.comment = Some("a comment".to_string());
    t.summary = Some("a summary".to_string());
    t.country = Some("somewhere".to_string());
    t.rating = Some("all".to_string());
    t.license = Some("free".to_string());
    t.copyright = Some("none".to_string());
    t.url = Some("http://example/about".to_string());
    t.picture = Some("cover.png".to_string());
    t.runtime = Some(3600);
    t.aspect_ratio = Some("16:9".to_string());
    t.audio_tracks = Some(vec!["jp".to_string(), "en".to_string()]);
    t.subtitles = Some(vec!["en".to_string()]);
    t
}

#[test]
fn a_plain_schedule_round_trips() {
    let p = Program::new(
        Source::Pathname("media/one.webm".to_string()),
        Tags::new(),
        vec![Instruction::Play(5, 600), Instruction::Play(610, 0)],
    );
    let sched = Schedule::new("evening", vec![p]);
    let text = sched.to_text();
    let back = parse(text.as_str()).unwrap();
    assert_eq!(back, sched);
}

#[test]
fn a_schedule_with_every_tag_round_trips() {
    let p = Program::new(
        Source::URL("http://example/a".to_string()),
        full_tags(),
        vec![Instruction::Play(0, 0)],
    );
    let sched = Schedule::new("tagged", vec![p]);
    let text = sched.to_text();
    let back = parse(text.as_str()).unwrap();
    assert_eq!(back, sched);
}

#[test]
fn a_nested_schedule_round_trips() {
    let inner = Program::new(
        Source::URL("http://example/clip".to_string()),
        Tags::new(),
        vec![Instruction::Play(60, 0)],
    );
    let outer = Program::new(
        Source::Pathname("main.mkv".to_string()),
        Tags::new(),
        vec![
            Instruction::Play(0, 3600),
            Instruction::SubProgram(Box::new(inner)),
            Instruction::Play(3600, 0),
        ],
    );
    let sched = Schedule::new("nested", vec![outer]);
    let text = sched.to_text();
    let back = parse(text.as_str()).unwrap();
    assert_eq!(back, sched);
}

#[test]
fn an_empty_schedule_round_trips() {
    let sched = Schedule::new("bare", Vec::new());
    let text = sched.to_text();
    assert_eq!(text, "(schedule \"bare\")".to_string());
    let back = parse(text.as_str()).unwrap();
    assert_eq!(back, sched);
}

#[test]
fn rendered_time_fields_are_zero_padded() {
    let p = Program::new(
        Source::Pathname("f".to_string()),
        Tags::new(),
        vec![Instruction::Play(5405, 0)],
    );
    let sched = Schedule::new("t", vec![p]);
    let text = sched.to_text();
    assert!(text.contains("(play 01:30:05 00:00:00)"));
}

#[test]
fn tags_render_with_their_names_and_values() {
    let mut t = Tags::new();
    t.season = Some(5);
    t.runtime = Some(120);
    let p = Program::new(Source::Pathname("f".to_string()), t, vec![Instruction::Play(0, 0)]);
    let sched = Schedule::new("t", vec![p]);
    let text = sched.to_text();
    assert!(text.contains(":season \"5\""));
    assert!(text.contains(":runtime \"120s\""));
}
