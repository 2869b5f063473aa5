use branch_pruner::action::{CliAction, CliError};
use branch_pruner::branch::{get_branches, CliBranch};

const ID: &str = "0123456789abcdef0123456789abcdef01234567";

fn branch(name: &str, time: i64, is_head: bool, source: usize) -> CliBranch {
    CliBranch::new(ID.to_string(), name.as_bytes().to_vec(), time, 0, is_head, source).unwrap()
}

fn names(list: &[CliBranch]) -> Vec<&str> {
    list.iter().map(|b| b.name.as_str()).collect()
}

#[test]
fn candidates_sorted_without_master() {
    let all = vec![
        branch("feature-a", 10, false, 0),
        branch("feature-b", 5, false, 1),
        branch("master", 1, false, 2),
        branch("current", 20, true, 3),
    ];
    let list = get_branches(&all);
    assert_eq!(names(&list), vec!["feature-b", "feature-a", "current"]);
    assert_eq!(list.iter().map(|b| b.source).collect::<Vec<_>>(), vec![1, 0, 3]);
}

#[test]
fn equal_times_keep_their_order() {
    let all = vec![
        branch("c", 7, false, 0),
        branch("a", 3, false, 1),
        branch("b", 7, false, 2),
        branch("d", 3, false, 3),
        branch("e", 7, false, 4),
    ];
    let list = get_branches(&all);
    assert_eq!(names(&list), vec!["a", "d", "c", "b", "e"]);
}

#[test]
fn only_master_gives_no_candidates() {
    let all = vec![branch("master", 1, true, 0)];
    assert!(get_branches(&all).is_empty());
    assert!(get_branches(&Vec::new()).is_empty());
}

#[test]
fn master_is_matched_exactly() {
    let all = vec![branch("master2", 2, false, 0), branch("Master", 1, false, 1)];
    let list = get_branches(&all);
    assert_eq!(names(&list), vec!["Master", "master2"]);
}

#[test]
fn time_moves_by_offset() {
    let b = CliBranch::new(ID.to_string(), b"topic".to_vec(), 0, 90, false, 4).unwrap();
    assert_eq!(b.time, 5400);
    assert_eq!(b.time_text, "1970-01-01 01:30:00");
    assert_eq!(b.name, "topic");
    assert_eq!(b.id, ID);
    assert_eq!(b.source, 4);
    let west = CliBranch::new(ID.to_string(), b"topic".to_vec(), 1_600_000_000, -300, true, 0)
        .unwrap();
    assert_eq!(west.time, 1_600_000_000 - 18_000);
    assert_eq!(west.time_text, "2020-09-13 07:26:40");
    assert!(west.is_head);
}

#[test]
fn name_must_be_utf8() {
    let r = CliBranch::new(ID.to_string(), vec![b'a', 0xff, b'b'], 0, 0, false, 0);
    assert!(matches!(r, Err(CliError::FromUtf8(_))));
}

#[test]
fn time_beyond_calendar_is_refused() {
    let r = CliBranch::new(ID.to_string(), b"x".to_vec(), i64::MAX, 0, false, 0);
    assert_eq!(r.unwrap_err(), CliError::Time(i64::MAX));
}

#[test]
fn commands_map_to_actions() {
    assert_eq!(CliAction::try_from('k'), Ok(CliAction::Keep));
    assert_eq!(CliAction::try_from('d'), Ok(CliAction::Delete));
    assert_eq!(CliAction::try_from('q'), Ok(CliAction::Quit));
    assert_eq!(CliAction::try_from('u'), Ok(CliAction::Undo));
    assert_eq!(CliAction::try_from('x'), Err(CliError::InvalidInput('x')));
    assert_eq!(CliAction::try_from('K'), Err(CliError::InvalidInput('K')));
}
