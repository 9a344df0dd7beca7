//! The lexical rules and the parser, on concrete texts.

use xbtved::parse::{is_data_rev, is_time, is_time_rev, parse, ParseError, Token};

#[test]
fn loc_rev_test() {
    assert!(is_data_rev("(foo \"bar\"") == (Some(Ok(Token::Data("bar".to_string()))), 5));
    assert!(
        is_data_rev("(foo bar\"")
            == (Some(Err(ParseError::BadToken("Cannot find closing quote!".to_string()))), 0)
    );
    assert!(is_data_rev("foo bar") == (None, 0));
}

#[test]
fn time_test() {
    assert!(is_time("00:00:00") == (Some(Ok(Token::Time(0))), 8));
    assert!(is_time("01:30:05") == (Some(Ok(Token::Time(90 * 60 + 5))), 8));
    assert!(is_time("ab:cd:ef") == (None, 0));
}

#[test]
fn time_rev_test() {
    assert!(is_time_rev("(play 00:00:00") == (Some(Ok(Token::Time(0))), 8));
    assert!(is_time_rev("(play 00:00:0a") == (None, 0));
    assert!(is_time_rev("(play 01:30:05") == (Some(Ok(Token::Time(90 * 60 + 5))), 8));
}

#[test]
fn toy_example() {
    let should_work = "(schedule \"foo\" (program (local \"foo\") (tags :director \"Bar Baz\")\n (instr (play 00:00:00 00:00:00))))";

    let schedule_failure1 = "(sked \"foo\" (program (local \"foo\") (tags :director \"Bar Baz\")\n (instr (play 00:00:00 00:00:00))))";

    let schedule_failure2 =
        "(program (tags director=\"Bar Baz\")\n (instr (play 00:00:00 00:00:00))))";

    let missing_paren_failure1 = "(schedule \"foo\" (program (local \"foo\") (tags :director \"Bar Baz\")\n (instr (play 00:00:00 00:00:00)))";

    let missing_paren_failure2 = "(schedule \"foo\" (program (local \"foo\") (tags :director \"Bar Baz\")\n (instr play 00:00:00 00:00:00))))";

    let bad_tag_failure = "(schedule \"foo\" (program (local \"foo\") (tags :dierekteur \"Bar Baz\")\n (instr (play 00:00:00 00:00:00))))";

    let no_tags = "(schedule \"foo\" (program (local \"foo\") (instr (play 00:00:00 00:00:00))))";

    let should_work2 = "(schedule \"foo\" (program (local \"foo\")\n (tags :director \"Bar Baz\" :cast (list \"Foo\" \"Bar\" \"Baz\"))\n (instr (play 00:00:00 00:00:00))))";

    if let Err(f) = parse(should_work) {
        println!("{}", f.message());
        panic!("expected a parse");
    }
    assert!(parse(should_work).is_ok());

    assert!(parse(schedule_failure1).is_err());

    assert!(parse(schedule_failure2).is_err());

    assert!(parse(missing_paren_failure1).is_err());

    assert!(parse(missing_paren_failure2).is_err());

    assert!(parse(bad_tag_failure).is_err());

    assert!(parse(should_work2).is_ok());

    if let Err(_f) = parse(no_tags) {
        panic!("a program without tags must parse");
    }
}

#[test]
fn parser_rejects_malformed_time_field() {
    let bad_time = "(schedule \"x\" (program (local \"f\") (instr (play 0a:00:00))))";
    assert!(parse(bad_time).is_err());
}

#[test]
fn parser_rejects_wrong_top_keyword_as_bad_action() {
    // A valid keyword in the schedule position that is not `schedule`.
    let wrong = "(program \"foo\" )";
    assert!(parse(wrong) == Err(ParseError::BadAction));
}

#[test]
fn parser_reports_unbalanced_parens_on_early_end() {
    let cut = "(schedule \"foo\" ";
    assert!(parse(cut) == Err(ParseError::UnbalancedParens));
}

#[test]
fn parsed_schedule_carries_its_parts() {
    let text = "(schedule \"day\" (program (network \"http://example/a\") (instr (play 00:00:05 00:01:00))))";
    let sched = parse(text).unwrap();
    assert_eq!(sched.get_name(), "day".to_string());
    assert_eq!(sched.programs_len(), 1);
    let p = sched.get_program_at(0).unwrap();
    assert!(p.is_location_url());
    assert_eq!(p.get_url(), Some("http://example/a"));
    let instrs = p.get_instrs();
    assert_eq!(instrs.len(), 1);
    assert_eq!(instrs[0].start_and_duration(), Some((5, 60)));
}

#[test]
fn nested_programs_parse() {
    let text = "(schedule \"n\" (program (local \"outer\") (instr (play 00:00:00 00:00:01) (program (network \"inner\") (instr (play ))))))";
    let sched = parse(text).unwrap();
    let p = sched.get_program_at(0).unwrap();
    let instrs = p.get_instrs();
    assert_eq!(instrs.len(), 2);
    assert!(instrs[0].is_play());
    assert!(instrs[1].is_subprogram());
    let inner = instrs[1].subprogram().unwrap();
    assert!(inner.is_location_url());
    assert_eq!(inner.get_instrs().len(), 1);
    assert_eq!(inner.get_instrs()[0].start_and_duration(), Some((0, 0)));
}

#[test]
fn tag_values_parse_with_their_coercions() {
    let text = "(schedule \"t\" (program (local \"f\") (tags :season \"5\" :year \"1999\" :runtime \"2m\" :airdate \"2016-02-29\" :cast (list \"A\" \"B\")) (instr (play ))))";
    let sched = parse(text).unwrap();
    let tags = sched.get_program_at(0).unwrap().get_tags();
    assert_eq!(tags.season, Some(5));
    assert_eq!(tags.year, Some(1999));
    assert_eq!(tags.runtime, Some(120));
    let d = tags.airdate.unwrap();
    assert_eq!((d.year, d.month, d.day), (2016, 2, 29));
    assert_eq!(tags.cast, Some(vec!["A".to_string(), "B".to_string()]));
}

#[test]
fn invalid_dates_and_numbers_are_rejected() {
    let bad_date = "(schedule \"t\" (program (local \"f\") (tags :airdate \"2015-02-29\") (instr (play ))))";
    assert!(parse(bad_date).is_err());
    let bad_season = "(schedule \"t\" (program (local \"f\") (tags :season \"900\") (instr (play ))))";
    assert!(parse(bad_season).is_err());
    let bad_runtime = "(schedule \"t\" (program (local \"f\") (tags :runtime \"12x\") (instr (play ))))";
    assert!(parse(bad_runtime).is_err());
}
