use branch_pruner::action::CliError;
use branch_pruner::branch::{get_branches, CliBranch};
use branch_pruner::session::{prompt, Effect, Phase, Session, HELP, NO_BRANCHES, UNDO_UNAVAILABLE};

const ID: &str = "0123456789abcdef0123456789abcdef01234567";

fn branch(name: &str, time: i64, is_head: bool, source: usize) -> CliBranch {
    CliBranch::new(ID.to_string(), name.as_bytes().to_vec(), time, 0, is_head, source).unwrap()
}

/// What a run wrote, which branches it deleted (by source), and how it ended.
struct Run {
    out: String,
    deleted: Vec<usize>,
    end: Effect,
    reads: usize,
}

/// Runs a review over the given branches on the given reads, deleting
/// every branch asked for.
fn drive(all: Vec<CliBranch>, input: &[Option<u8>]) -> Run {
    let (mut session, mut reply) = Session::start(get_branches(&all));
    let mut out = String::new();
    let mut deleted = Vec::new();
    let mut reads = 0;
    loop {
        out.push_str(&reply.text);
        match reply.effect {
            Effect::Read => {
                let byte = input[reads];
                reads += 1;
                reply = session.read(byte);
            }
            Effect::Delete(source) => {
                deleted.push(source);
                reply = session.deleted();
            }
            end => return Run { out, deleted, end, reads },
        }
    }
}

fn bytes(s: &str) -> Vec<Option<u8>> {
    s.bytes().map(Some).collect()
}

fn question(name: &str) -> String {
    format!("'{}' (0123456789) last commit at 1970-01-01 00:00:05 (k/d/q/u/?) >", name)
}

#[test]
fn prompt_shows_name_short_id_and_time() {
    let b = branch("feature-b", 5, false, 0);
    assert_eq!(prompt(&b), question("feature-b"));
    let short = CliBranch::new("abc".to_string(), b"s".to_vec(), 5, 0, false, 0).unwrap();
    assert_eq!(prompt(&short), "'s' (abc) last commit at 1970-01-01 00:00:05 (k/d/q/u/?) >");
}

#[test]
fn scenario_current_and_master_never_asked() {
    let all = vec![
        branch("feature-a", 10, false, 0),
        branch("feature-b", 5, false, 1),
        branch("master", 1, false, 2),
        branch("current", 20, true, 3),
    ];
    let run = drive(all, &bytes("kk"));
    assert_eq!(run.end, Effect::Finish);
    assert_eq!(run.reads, 2);
    assert!(run.deleted.is_empty());
    let b = run.out.find("'feature-b'").unwrap();
    let a = run.out.find("'feature-a'").unwrap();
    assert!(b < a);
    assert!(!run.out.contains("'current'"));
    assert!(!run.out.contains("'master'"));
    assert!(run.out.ends_with("Current branch is ignored.\n\r"));
}

#[test]
fn help_twice_then_keep() {
    let run = drive(vec![branch("feature-b", 5, false, 0)], &bytes("??k"));
    assert_eq!(run.end, Effect::Finish);
    assert_eq!(run.out.matches(&question("feature-b")).count(), 3);
    assert_eq!(run.out.matches(HELP).count(), 2);
    assert!(run.deleted.is_empty());
    let expected = format!(
        "{q} ?\n\r{h}{q} ?\n\r{h}{q} k\n\r",
        q = question("feature-b"),
        h = HELP
    );
    assert_eq!(run.out, expected);
}

#[test]
fn empty_read_asks_again() {
    let run = drive(vec![branch("feature-b", 5, false, 0)], &[None, None, Some(b'k')]);
    assert_eq!(run.end, Effect::Finish);
    assert_eq!(run.out.matches(&question("feature-b")).count(), 3);
    assert_eq!(run.reads, 3);
}

#[test]
fn quit_stops_the_review() {
    let all: Vec<CliBranch> = (0..20).map(|i| branch(&format!("b{}", i), i, false, i as usize)).collect();
    let run = drive(all, &bytes("kq"));
    assert_eq!(run.end, Effect::Finish);
    assert_eq!(run.reads, 2);
    assert!(run.out.contains("'b1'"));
    assert!(!run.out.contains("'b2'"));
    assert!(run.deleted.is_empty());
}

#[test]
fn unknown_character_fails() {
    let run = drive(vec![branch("a", 1, false, 0), branch("b", 2, false, 1)], &bytes("x"));
    assert_eq!(run.end, Effect::Fail(CliError::InvalidInput('x')));
    assert!(run.out.ends_with(" x\n\r"));
    assert!(!run.out.contains("'b'"));
    assert!(run.deleted.is_empty());
}

#[test]
fn keep_deletes_nothing() {
    let run = drive(vec![branch("feature-b", 5, false, 7)], &bytes("k\n"));
    assert_eq!(run.end, Effect::Finish);
    assert!(run.deleted.is_empty());
    assert_eq!(run.reads, 1);
}

#[test]
fn delete_once_and_report() {
    let run = drive(vec![branch("feature-b", 5, false, 7)], &bytes("d\n"));
    assert_eq!(run.end, Effect::Finish);
    assert_eq!(run.deleted, vec![7]);
    let report = format!(
        "'feature-b' has deleted, to restore run `git branch feature-b {}`\n\r",
        ID
    );
    assert!(run.out.ends_with(&report));
}

#[test]
fn no_candidates_one_line() {
    let run = drive(vec![branch("master", 1, true, 0)], &[]);
    assert_eq!(run.end, Effect::Finish);
    assert_eq!(run.out, NO_BRANCHES);
    assert_eq!(run.out.matches("\n\r").count(), 1);
    assert_eq!(run.reads, 0);
    let (session, reply) = Session::start(Vec::new());
    assert_eq!(session.phase, Phase::Done);
    assert_eq!(reply.text, NO_BRANCHES);
}

#[test]
fn only_current_branch_is_skipped() {
    let run = drive(vec![branch("current", 3, true, 0)], &[]);
    assert_eq!(run.end, Effect::Finish);
    assert_eq!(run.out, "Current branch is ignored.\n\r");
}

#[test]
fn undo_is_reported_and_kept() {
    let run = drive(vec![branch("a", 1, false, 0), branch("b", 2, false, 1)], &bytes("uk"));
    assert_eq!(run.end, Effect::Finish);
    assert!(run.deleted.is_empty());
    assert!(run.out.contains(&format!(" u\n\r{}'b'", UNDO_UNAVAILABLE)));
}

#[test]
fn delete_then_continue() {
    let all = vec![branch("a", 1, false, 4), branch("cur", 2, true, 5), branch("b", 3, false, 6)];
    let run = drive(all, &bytes("dd"));
    assert_eq!(run.deleted, vec![4, 6]);
    assert_eq!(run.end, Effect::Finish);
    assert_eq!(run.out.matches("Current branch is ignored.\n\r").count(), 1);
}
