//! The batch generator and the placement validation.

use xbtved::blocks::{BlockIterator, FillType, FillerIterator, Placement};
use xbtved::tags::Tags;

#[test]
fn placement_ordering_is_validated() {
    assert!(FillType::Twice(Placement::Middle(10), Placement::Middle(5)).validate().is_err());
    assert!(FillType::Twice(Placement::Beginning, Placement::End).validate().is_ok());
    assert!(FillType::Twice(Placement::End, Placement::Beginning).validate().is_err());
    assert!(FillType::Thrice(Placement::Beginning, Placement::Middle(5), Placement::Middle(9))
        .validate()
        .is_ok());
    assert!(FillType::Thrice(Placement::Middle(9), Placement::Middle(5), Placement::End)
        .validate()
        .is_err());
    assert!(FillType::Once(Placement::Middle(3)).validate().is_ok());
    assert!(FillType::NoFill.validate().is_ok());
}

#[test]
fn block_generator_yields_ceiling_division_many_batches() {
    let entries = vec![vec!["a".to_string(), "b".to_string(), "c".to_string()]];
    let filler = FillerIterator::new(FillType::NoFill, Vec::new()).unwrap();
    let repeat = vec![2];
    let mut blocks = BlockIterator::new("block", &entries, &filler, &repeat, None).unwrap();

    let first = blocks.next().unwrap();
    assert_eq!(first.get_name(), "block-1".to_string());
    assert_eq!(first.programs_len(), 2);
    assert_eq!(first.get_program_at(0).unwrap().get_path(), Some("a"));
    assert_eq!(first.get_program_at(1).unwrap().get_path(), Some("b"));

    let second = blocks.next().unwrap();
    assert_eq!(second.get_name(), "block-2".to_string());
    assert_eq!(second.programs_len(), 1);
    assert_eq!(second.get_program_at(0).unwrap().get_path(), Some("c"));

    assert!(blocks.next().is_none());
}

#[test]
fn batch_names_are_padded_to_the_run_width() {
    let items: Vec<String> = (0..12).map(|i| format!("m{}", i)).collect();
    let entries = vec![items];
    let filler = FillerIterator::new(FillType::NoFill, Vec::new()).unwrap();
    let repeat = vec![1];
    let mut blocks = BlockIterator::new("run", &entries, &filler, &repeat, None).unwrap();
    let first = blocks.next().unwrap();
    assert_eq!(first.get_name(), "run-01".to_string());
    for _ in 0..9 {
        blocks.next().unwrap();
    }
    let eleventh = blocks.next().unwrap();
    assert_eq!(eleventh.get_name(), "run-11".to_string());
}

#[test]
fn fillers_rotate_through_the_pool_and_split_the_play_window() {
    let entries = vec![vec!["x".to_string(), "y".to_string()]];
    let pool = vec!["f1".to_string(), "f2".to_string()];
    let filler = FillerIterator::new(FillType::Once(Placement::Middle(30)), pool).unwrap();
    let repeat = vec![2];
    let mut blocks = BlockIterator::new("b", &entries, &filler, &repeat, None).unwrap();
    let batch = blocks.next().unwrap();
    assert_eq!(batch.programs_len(), 2);

    let p0 = batch.get_program_at(0).unwrap();
    let instrs = p0.get_instrs();
    assert_eq!(instrs.len(), 3);
    assert_eq!(instrs[0].start_and_duration(), Some((0, 30)));
    assert_eq!(
        instrs[1].subprogram().unwrap().get_path(),
        Some("f1"),
    );
    assert_eq!(instrs[2].start_and_duration(), Some((30, 0)));

    // The second item draws the next pool slot.
    let p1 = batch.get_program_at(1).unwrap();
    assert_eq!(p1.get_instrs()[1].subprogram().unwrap().get_path(), Some("f2"));

    assert!(blocks.next().is_none());
}

#[test]
fn generator_validates_its_shapes_eagerly() {
    let entries = vec![vec!["a".to_string()]];
    let filler = FillerIterator::new(FillType::NoFill, Vec::new()).unwrap();
    assert!(BlockIterator::new("b", &entries, &filler, &vec![1, 2], None).is_err());
    assert!(BlockIterator::new("b", &entries, &filler, &vec![0], None).is_err());
    let wrong_tags = Some(vec![vec![Tags::new(), Tags::new()]]);
    assert!(BlockIterator::new("b", &entries, &filler, &vec![1], wrong_tags).is_err());
    let right_tags = Some(vec![vec![Tags::new()]]);
    assert!(BlockIterator::new("b", &entries, &filler, &vec![1], right_tags).is_ok());
}

#[test]
fn an_empty_pool_refuses_a_drawing_pattern() {
    assert!(FillerIterator::new(FillType::Once(Placement::Beginning), Vec::new()).is_err());
    assert!(FillerIterator::new(FillType::NoFill, Vec::new()).is_ok());
}

#[test]
fn twice_pattern_splits_at_both_times() {
    let pool = vec!["f".to_string()];
    let mut filler =
        FillerIterator::new(FillType::Twice(Placement::Middle(10), Placement::Middle(25)), pool)
            .unwrap();
    let instrs = filler.next().unwrap();
    assert_eq!(instrs.len(), 5);
    assert_eq!(instrs[0].start_and_duration(), Some((0, 10)));
    assert!(instrs[1].is_subprogram());
    assert_eq!(instrs[2].start_and_duration(), Some((10, 15)));
    assert!(instrs[3].is_subprogram());
    assert_eq!(instrs[4].start_and_duration(), Some((25, 0)));
}
