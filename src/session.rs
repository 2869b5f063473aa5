use vstd::prelude::*;
use crate::action::{CliAction, CliError, action_of};
use crate::branch::CliBranch;

verus! {

/// Said when there is nothing to review.
pub const NO_BRANCHES: &'static str = "The are no branches other than 'master'\n\r";

/// Said in place of a prompt for the branch that is checked out.
pub const HEAD_SKIPPED: &'static str = "Current branch is ignored.\n\r";

/// The commands, shown on `?`.
pub const HELP: &'static str = "Available commands:\n\rk - Keep the branch\n\rd - Delete the branch\n\ru - Restore last deleted branch\n\rq - Quit the programm\n\r? - Show this help\n\r";

/// Said on `u`: restoring a deleted branch is not available, so the branch
/// is kept and the review goes on.
pub const UNDO_UNAVAILABLE: &'static str = "Restoring a deleted branch is not implemented; the branch is kept.\n\r";

/// Relies on `char::to_string`: a string of the one character.
#[verifier::external_body]
fn char_text(c: char) -> (r: String)
    ensures
        r@ == seq![c],
{
    c.to_string()
}

/// Where the review of the candidate list stands.
#[derive(Debug, Clone, Copy, PartialEq, Eq, Structural)]
pub enum Phase {
    /// Waiting for the user's answer on the current candidate.
    Asking,
    /// Waiting for the current candidate's branch to be deleted.
    Deleting,
    /// The run is over.
    Done,
}

/// What the caller carries out after writing a reply's text.
#[derive(Debug, PartialEq, Eq)]
pub enum Effect {
    /// Read one byte of input and hand it to `Session::read`.
    Read,
    /// Delete the branch at this place of the repository's enumeration
    /// (`CliBranch::source`), then call `Session::deleted`.
    Delete(usize),
    /// End the run successfully.
    Finish,
    /// End the run with this error.
    Fail(CliError),
}

/// Text to write, then what to do.
#[derive(Debug)]
pub struct Reply {
    pub text: String,
    pub effect: Effect,
}

/// The review of a candidate list, one branch at a time.
#[derive(Debug)]
pub struct Session {
    pub branches: Vec<CliBranch>,
    /// The candidate under review.
    pub current: usize,
    pub phase: Phase,
}

/// The first ten characters of a commit identity.
pub open spec fn short_id(id: Seq<char>) -> Seq<char> {
    if id.len() <= 10 {
        id
    } else {
        id.take(10)
    }
}

/// The question asked for a branch; no line end, the answer follows it.
pub open spec fn prompt_text(b: CliBranch) -> Seq<char> {
    "'"@ + b.name@ + "' ("@ + short_id(b.id@) + ") last commit at "@ + b.time_text@
        + " (k/d/q/u/?) >"@
}

/// The typed character made visible, as raw mode does not show it.
pub open spec fn echo_text(c: char) -> Seq<char> {
    " "@ + seq![c] + "\n\r"@
}

/// The report on a deleted branch, with the command that brings it back.
pub open spec fn deleted_text(b: CliBranch) -> Seq<char> {
    "'"@ + b.name@ + "' has deleted, to restore run `git branch "@ + b.name@ + " "@ + b.id@
        + "`\n\r"@
}

/// The first candidate from `from` on that is not checked out, or the
/// length of the list where there is none.
pub open spec fn next_offer(s: Seq<CliBranch>, from: int) -> int
    decreases s.len() - from,
{
    if from < 0 || from >= s.len() {
        s.len() as int
    } else if s[from].is_head {
        next_offer(s, from + 1)
    } else {
        from
    }
}

/// One note for each checked-out branch passed over from `from` on.
pub open spec fn skipped_text(s: Seq<CliBranch>, from: int) -> Seq<char>
    decreases s.len() - from,
{
    if from < 0 || from >= s.len() || !s[from].is_head {
        Seq::empty()
    } else {
        HEAD_SKIPPED@ + skipped_text(s, from + 1)
    }
}

/// What is written on moving on to the candidates from `from` on.
pub open spec fn offer_text(s: Seq<CliBranch>, from: int) -> Seq<char> {
    let n = next_offer(s, from);
    if n < s.len() {
        skipped_text(s, from) + prompt_text(s[n])
    } else {
        skipped_text(s, from)
    }
}

/// Moving on from `from`: the session asks about the next candidate that is
/// not checked out, or ends where there is none.
pub open spec fn moved_on(
    s: Seq<CliBranch>,
    new_s: Session,
    r: Reply,
    text: Seq<char>,
    from: int,
) -> bool {
    let n = next_offer(s, from);
    &&& new_s.branches@ == s
    &&& r.text@ == text + offer_text(s, from)
    &&& if n < s.len() {
        new_s.current == n && new_s.phase == Phase::Asking && r.effect == Effect::Read
    } else {
        new_s.phase == Phase::Done && r.effect == Effect::Finish
    }
}

/// How the session takes an answer `byte` on its current candidate: the
/// session after it, `new_s`, and the reply `r`.
pub open spec fn answered(old_s: Session, byte: Option<u8>, new_s: Session, r: Reply) -> bool {
    let s = old_s.branches@;
    let cur = old_s.current;
    let b = s[cur as int];
    match byte {
        None => new_s == old_s && r.text@ == prompt_text(b) && r.effect == Effect::Read,
        Some(x) => {
            let c = x as char;
            if c == '?' {
                &&& new_s == old_s
                &&& r.text@ == echo_text(c) + HELP@ + prompt_text(b)
                &&& r.effect == Effect::Read
            } else {
                match action_of(c) {
                    Some(CliAction::Keep) => moved_on(s, new_s, r, echo_text(c), cur + 1),
                    Some(CliAction::Undo) => moved_on(
                        s,
                        new_s,
                        r,
                        echo_text(c) + UNDO_UNAVAILABLE@,
                        cur + 1,
                    ),
                    Some(CliAction::Delete) => {
                        &&& new_s.branches@ == s
                        &&& new_s.current == cur
                        &&& new_s.phase == Phase::Deleting
                        &&& r.text@ == echo_text(c)
                        &&& r.effect == Effect::Delete(b.source)
                    },
                    Some(CliAction::Quit) => {
                        &&& new_s.branches@ == s
                        &&& new_s.phase == Phase::Done
                        &&& r.text@ == echo_text(c)
                        &&& r.effect == Effect::Finish
                    },
                    None => {
                        &&& new_s.branches@ == s
                        &&& new_s.phase == Phase::Done
                        &&& r.text@ == echo_text(c)
                        &&& r.effect == Effect::Fail(CliError::InvalidInput(c))
                    },
                }
            }
        },
    }
}

/// `next_offer` lies between `from` and the end, passes over checked-out
/// branches only, and stops at one that is not.
pub proof fn lemma_next_offer(s: Seq<CliBranch>, from: int)
    requires
        0 <= from <= s.len(),
    ensures
        from <= next_offer(s, from) <= s.len(),
        forall|j: int| from <= j < next_offer(s, from) ==> s[j].is_head,
        next_offer(s, from) < s.len() ==> !s[next_offer(s, from)].is_head,
    decreases s.len() - from,
{
    if from < s.len() && s[from].is_head {
        lemma_next_offer(s, from + 1);
    }
}

impl Session {
    /// Opens the review of a candidate list: where it is empty, says so and
    /// ends; else asks about its first branch that is not checked out.
    pub fn start(branches: Vec<CliBranch>) -> (r: (Session, Reply))
        ensures
            r.0.wf(),
            branches@.len() == 0 ==> r.0.phase == Phase::Done && r.1.text@ == NO_BRANCHES@
                && r.1.effect == Effect::Finish,
            branches@.len() > 0 ==> moved_on(branches@, r.0, r.1, Seq::empty(), 0),
    {
        if branches.len() == 0 {
            let session = Session { branches, current: 0, phase: Phase::Done };
            (session, Reply { text: String::from_str(NO_BRANCHES), effect: Effect::Finish })
        } else {
            let mut session = Session { branches, current: 0, phase: Phase::Asking };
            let reply = session.offer_from(0, String::new());
            proof {
                assert(reply.text@ =~= Seq::<char>::empty() + offer_text(branches@, 0));
            }
            (session, reply)
        }
    }

    /// Takes the user's answer on the current candidate: one byte, or
    /// `None` where the read gave none.
    /// - No byte: the question is asked again.
    /// - `?`: the byte is echoed, the commands are listed, and the question
    ///   is asked again.
    /// - `k`: the branch is kept, and the review moves on.
    /// - `u`: restoring is not available; this is said, the branch is kept,
    ///   and the review moves on.
    /// - `d`: the branch is to be deleted.
    /// - `q`: the run ends.
    /// - Any other character ends the run with `InvalidInput`.
    pub fn read(&mut self, byte: Option<u8>) -> (r: Reply)
        requires
            old(self).wf(),
            old(self).phase == Phase::Asking,
        ensures
            final(self).wf(),
            answered(*old(self), byte, *final(self), r),
    {
        let cur: usize = self.current;
        let len: usize = self.branches.len();
        assert(cur < len);
        match byte {
            None => Reply { text: prompt(&self.branches[cur]), effect: Effect::Read },
            Some(x) => {
                let c = x as char;
                let mut text = String::from_str(" ");
                let typed = char_text(c);
                text.append(typed.as_str());
                text.append("\n\r");
                proof {
                    assert(text@ =~= echo_text(c));
                }
                if c == '?' {
                    text.append(HELP);
                    let question = prompt(&self.branches[cur]);
                    text.append(question.as_str());
                    Reply { text, effect: Effect::Read }
                } else {
                    match CliAction::try_from(c) {
                        Ok(CliAction::Keep) => self.offer_from(cur + 1, text),
                        Ok(CliAction::Undo) => {
                            text.append(UNDO_UNAVAILABLE);
                            self.offer_from(cur + 1, text)
                        },
                        Ok(CliAction::Delete) => {
                            self.phase = Phase::Deleting;
                            Reply { text, effect: Effect::Delete(self.branches[cur].source) }
                        },
                        Ok(CliAction::Quit) => {
                            self.phase = Phase::Done;
                            Reply { text, effect: Effect::Finish }
                        },
                        Err(e) => {
                            self.phase = Phase::Done;
                            Reply { text, effect: Effect::Fail(e) }
                        },
                    }
                }
            },
        }
    }

    /// Called once the current candidate's branch has been deleted: reports
    /// it, with the command that restores it, and moves on.
    pub fn deleted(&mut self) -> (r: Reply)
        requires
            old(self).wf(),
            old(self).phase == Phase::Deleting,
        ensures
            final(self).wf(),
            moved_on(
                old(self).branches@,
                *final(self),
                r,
                deleted_text(old(self).branches@[old(self).current as int]),
                old(self).current + 1,
            ),
    {
        let cur: usize = self.current;
        let len: usize = self.branches.len();
        assert(cur < len);
        let b = &self.branches[cur];
        let mut text = String::from_str("'");
        text.append(b.name.as_str());
        text.append("' has deleted, to restore run `git branch ");
        text.append(b.name.as_str());
        text.append(" ");
        text.append(b.id.as_str());
        text.append("`\n\r");
        proof {
            assert(text@ =~= deleted_text(self.branches@[cur as int]));
        }
        self.offer_from(cur + 1, text)
    }

    /// A session that is not over stands at a candidate that may be offered.
    pub open spec fn wf(&self) -> bool {
        self.phase != Phase::Done ==> self.current < self.branches@.len()
            && !self.branches@[self.current as int].is_head
    }

    /// Moves on to the candidates from `from` on, after `text`.
    fn offer_from(&mut self, from: usize, text: String) -> (r: Reply)
        requires
            from <= old(self).branches@.len(),
        ensures
            moved_on(old(self).branches@, *final(self), r, text@, from as int),
            final(self).wf(),
    {
        let ghost s = self.branches@;
        let mut text = text;
        let ghost start = text@;
        let mut i: usize = from;
        proof {
            lemma_next_offer(s, from as int);
        }
        while i < self.branches.len() && self.branches[i].is_head
            invariant
                self.branches@ == s,
                from <= i <= s.len(),
                next_offer(s, i as int) == next_offer(s, from as int),
                text@ + skipped_text(s, i as int) == start + skipped_text(s, from as int),
            decreases s.len() - i,
        {
            text.append(HEAD_SKIPPED);
            proof {
                assert(skipped_text(s, i as int) == HEAD_SKIPPED@ + skipped_text(s, i + 1));
                assert(text@ + skipped_text(s, i + 1) =~= start + skipped_text(s, from as int));
            }
            i += 1;
        }
        proof {
            lemma_next_offer(s, i as int);
            assert(skipped_text(s, i as int) =~= Seq::empty());
            assert(text@ =~= start + skipped_text(s, from as int));
        }
        if i < self.branches.len() {
            self.current = i;
            self.phase = Phase::Asking;
            let b = &self.branches[i];
            let question = prompt(b);
            text.append(question.as_str());
            proof {
                assert(text@ =~= start + offer_text(s, from as int));
            }
            Reply { text, effect: Effect::Read }
        } else {
            self.phase = Phase::Done;
            Reply { text, effect: Effect::Finish }
        }
    }
}

/// Two sessions stand at the same point of the same review.
pub open spec fn same_state(a: Session, b: Session) -> bool {
    &&& a.branches@ == b.branches@
    &&& a.phase == b.phase
    &&& a.phase != Phase::Done ==> a.current == b.current
}

/// An answer is taken the same way every time: the same answer on the same
/// session gives the same session and the same reply.
pub proof fn answer_is_deterministic(
    s: Session,
    byte: Option<u8>,
    n1: Session,
    r1: Reply,
    n2: Session,
    r2: Reply,
)
    requires
        s.wf(),
        s.phase == Phase::Asking,
        answered(s, byte, n1, r1),
        answered(s, byte, n2, r2),
    ensures
        same_state(n1, n2),
        r1.text@ == r2.text@,
        r1.effect == r2.effect,
{
}

/// A request for help resolves nothing: the session stays on the same
/// candidate, the commands are listed and the question is asked again.
pub proof fn help_asks_again(s: Session, x: u8, n: Session, r: Reply)
    requires
        s.wf(),
        s.phase == Phase::Asking,
        x as char == '?',
        answered(s, Some(x), n, r),
    ensures
        n == s,
        r.effect == Effect::Read,
        r.text@ == echo_text('?') + HELP@ + prompt_text(s.branches@[s.current as int]),
{
}

/// `q` ends the review at once: the session is over, and no later
/// candidate is taken up, however many remain.
pub proof fn quit_ends_review(s: Session, x: u8, n: Session, r: Reply)
    requires
        s.wf(),
        s.phase == Phase::Asking,
        x as char == 'q',
        answered(s, Some(x), n, r),
    ensures
        n.phase == Phase::Done,
        r.effect == Effect::Finish,
{
}

/// A character that names no command ends the run with `InvalidInput`; it
/// is never taken as an answer.
pub proof fn unknown_answer_fails(s: Session, x: u8, n: Session, r: Reply)
    requires
        s.wf(),
        s.phase == Phase::Asking,
        action_of(x as char) is None,
        x as char != '?',
        answered(s, Some(x), n, r),
    ensures
        n.phase == Phase::Done,
        r.effect == Effect::Fail(CliError::InvalidInput(x as char)),
{
}

/// A deletion is asked for on `d` and on nothing else, and then of the
/// current candidate's branch; every other answer leaves the branches as
/// they are.
pub proof fn delete_only_on_d(s: Session, byte: Option<u8>, n: Session, r: Reply)
    requires
        s.wf(),
        s.phase == Phase::Asking,
        answered(s, byte, n, r),
    ensures
        r.effect is Delete <==> (byte matches Some(x) && x as char == 'd'),
        r.effect is Delete ==> r.effect == Effect::Delete(s.branches@[s.current as int].source),
{
}

/// A session that is not over never stands at the checked-out branch: that
/// branch is never asked about.
pub proof fn head_never_asked(s: Session)
    requires
        s.wf(),
        s.phase != Phase::Done,
    ensures
        !s.branches@[s.current as int].is_head,
{
}

/// The question asked for a branch.
pub fn prompt(b: &CliBranch) -> (r: String)
    ensures
        r@ == prompt_text(*b),
{
    let mut t = String::from_str("'");
    t.append(b.name.as_str());
    t.append("' (");
    let id = b.id.as_str();
    let n: usize = id.unicode_len();
    if n <= 10 {
        t.append(id);
    } else {
        t.append(id.substring_char(0, 10));
    }
    t.append(") last commit at ");
    t.append(b.time_text.as_str());
    t.append(" (k/d/q/u/?) >");
    proof {
        assert(t@ =~= prompt_text(*b));
    }
    t
}

} // verus!
