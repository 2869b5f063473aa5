use vstd::prelude::*;
use crate::action::CliError;

verus! {

/// A name for the text that `String::from_utf8` gives for a byte sequence:
/// `None` where the bytes are not UTF-8.
pub uninterp spec fn utf8_decoded(bytes: Seq<u8>) -> Option<Seq<char>>;

/// A name for how chrono writes the calendar time that lies `secs` seconds
/// after 1970-01-01 00:00:00 (`YYYY-MM-DD hh:mm:ss`).
pub uninterp spec fn naive_time_text(secs: int) -> Seq<char>;

/// Relies on `String::from_utf8`: the bytes are taken as they are where they
/// are UTF-8, and refused otherwise; the refusal is passed on as its message.
#[verifier::external_body]
fn decode_utf8(bytes: Vec<u8>) -> (r: Result<String, String>)
    ensures
        r is Ok <==> utf8_decoded(bytes@) is Some,
        r matches Ok(s) ==> utf8_decoded(bytes@) == Some(s@),
{
    match String::from_utf8(bytes) {
        Ok(s) => Ok(s),
        Err(e) => Err(e.to_string()),
    }
}

/// Relies on `chrono::DateTime::from_timestamp` and the `Display` of
/// `NaiveDateTime`. chrono's dates run from the year 262144 BCE to 262142 CE,
/// so every time within 8 * 10^12 seconds of 1970 can be written.
#[verifier::external_body]
fn calendar_text(secs: i64) -> (r: Option<String>)
    ensures
        r matches Some(t) ==> t@ == naive_time_text(secs as int),
        -8_000_000_000_000 <= secs <= 8_000_000_000_000 ==> r is Some,
{
    chrono::DateTime::from_timestamp(secs, 0).map(|t| t.naive_utc().to_string())
}

/// A local branch offered for review.
#[derive(Debug)]
pub struct CliBranch {
    /// The tip commit's identity, in its hexadecimal form.
    pub id: String,
    pub name: String,
    /// The tip commit's time in seconds since 1970, moved by the commit's
    /// own time-zone offset.
    pub time: i64,
    /// The time above as a calendar date and time of day.
    pub time_text: String,
    /// Whether the branch is the one checked out.
    pub is_head: bool,
    /// Where the branch stood in the repository's enumeration.
    pub source: usize,
}

/// A commit time moved by its time-zone offset, given in minutes.
pub open spec fn adjusted_time(seconds: int, offset_minutes: int) -> int {
    seconds + 60 * offset_minutes
}

pub open spec fn is_master(b: CliBranch) -> bool {
    b.name@ == "master"@
}

/// The branches that may be offered: all but the one named `master`, in
/// their order.
pub open spec fn without_master(s: Seq<CliBranch>) -> Seq<CliBranch> {
    s.filter(offered())
}

/// Whether a branch may be offered for review.
pub open spec fn offered() -> spec_fn(CliBranch) -> bool {
    |b: CliBranch| !is_master(b)
}

pub open spec fn sorted_by_time(s: Seq<CliBranch>) -> bool {
    forall|i: int, j: int| 0 <= i < j < s.len() ==> s[i].time <= s[j].time
}

/// `p` places each entry of `r` at its position in `s`, once each, and keeps
/// the order of `s` among entries of equal time.
pub open spec fn stable_placement(r: Seq<CliBranch>, s: Seq<CliBranch>, p: Seq<int>) -> bool {
    &&& p.len() == r.len() == s.len()
    &&& forall|i: int| 0 <= i < r.len() ==> 0 <= #[trigger] p[i] < s.len() && r[i] == s[p[i]]
    &&& forall|i: int, j: int| 0 <= i < j < r.len() ==> p[i] != p[j]
    &&& forall|i: int, j: int|
        0 <= i < j < r.len() && r[i].time == r[j].time ==> p[i] < p[j]
}

/// `r` is `s` sorted by time, entries of equal time left in their order.
pub open spec fn stably_sorted(r: Seq<CliBranch>, s: Seq<CliBranch>) -> bool {
    sorted_by_time(r) && exists|p: Seq<int>| stable_placement(r, s, p)
}

impl CliBranch {
    /// Builds a candidate from what the repository holds of a branch: the
    /// name's bytes must be UTF-8, and the commit time, moved by its offset,
    /// must be a date that can be shown.
    pub fn new(
        id: String,
        name_bytes: Vec<u8>,
        seconds: i64,
        offset_minutes: i32,
        is_head: bool,
        source: usize,
    ) -> (r: Result<CliBranch, CliError>)
        requires
            i64::MIN <= adjusted_time(seconds as int, offset_minutes as int) <= i64::MAX,
        ensures
            utf8_decoded(name_bytes@) is None <==> r matches Err(CliError::FromUtf8(_)),
            utf8_decoded(name_bytes@) matches Some(name) ==> match r {
                Ok(b) => {
                    &&& b.id == id
                    &&& b.name@ == name
                    &&& b.time == adjusted_time(seconds as int, offset_minutes as int)
                    &&& b.time_text@ == naive_time_text(b.time as int)
                    &&& b.is_head == is_head
                    &&& b.source == source
                },
                Err(e) => e == CliError::Time(
                    adjusted_time(seconds as int, offset_minutes as int) as i64,
                ),
            },
            utf8_decoded(name_bytes@) is Some && -8_000_000_000_000 <= adjusted_time(
                seconds as int,
                offset_minutes as int,
            ) <= 8_000_000_000_000 ==> r is Ok,
    {
        let name = match decode_utf8(name_bytes) {
            Ok(n) => n,
            Err(msg) => return Err(CliError::FromUtf8(msg)),
        };
        let time: i64 = seconds + (offset_minutes as i64) * 60;
        match calendar_text(time) {
            Some(time_text) => Ok(CliBranch { id, name, time, time_text, is_head, source }),
            None => Err(CliError::Time(time)),
        }
    }

    /// A second candidate equal to this one.
    pub fn duplicate(&self) -> (r: CliBranch)
        ensures
            r == *self,
    {
        CliBranch {
            id: self.id.clone(),
            name: self.name.clone(),
            time: self.time,
            time_text: self.time_text.clone(),
            is_head: self.is_head,
            source: self.source,
        }
    }
}

/// The branches offered for review, taken from all local branches in the
/// order the repository gave them: every branch but `master`, sorted by
/// time, branches of equal time left in their order.
pub fn get_branches(all: &Vec<CliBranch>) -> (r: Vec<CliBranch>)
    ensures
        stably_sorted(r@, without_master(all@)),
        sorted_by_time(r@),
        forall|i: int| 0 <= i < r@.len() ==> !is_master(#[trigger] r@[i]),
{
    let master = String::from_str("master");
    let mut r: Vec<CliBranch> = Vec::new();
    let ghost mut p: Seq<int> = Seq::empty();
    let mut i: usize = 0;
    while i < all.len()
        invariant
            0 <= i <= all@.len(),
            master@ == "master"@,
            sorted_by_time(r@),
            stable_placement(r@, all@.take(i as int).filter(offered()), p),
        decreases all@.len() - i,
    {
        let ghost s = all@.take(i as int).filter(offered());
        proof {
            assert(all@.take(i as int + 1) =~= all@.take(i as int).push(all@[i as int]));
            all@.take(i as int).lemma_filter_push(all@[i as int], offered());
        }
        if all[i].name != master {
            let b = all[i].duplicate();
            let mut k: usize = 0;
            while k < r.len() && r[k].time <= b.time
                invariant
                    0 <= k <= r@.len(),
                    forall|j: int| 0 <= j < k ==> r@[j].time <= b.time,
                decreases r@.len() - k,
            {
                k += 1;
            }
            let ghost old_r = r@;
            let ghost n = s.len() as int;
            r.insert(k, b);
            proof {
                let q = p.insert(k as int, n);
                let s2 = s.push(b);
                assert(r@ =~= old_r.insert(k as int, b));
                assert forall|x: int| 0 <= x < r@.len() implies 0 <= #[trigger] q[x] < s2.len()
                    && r@[x] == s2[q[x]] by {
                    if x > k as int {
                        assert(q[x] == p[x - 1]);
                    }
                }
                assert forall|x: int, y: int| 0 <= x < y < r@.len() implies r@[x].time
                    <= r@[y].time by {
                    if y > k as int && x < k as int {
                        assert(old_r[x].time <= old_r[y - 1].time);
                    }
                }
                assert forall|x: int, y: int| 0 <= x < y < r@.len() implies q[x] != q[y] by {
                    if x < k as int && y > k as int {
                        assert(q[y] == p[y - 1]);
                    }
                }
                assert forall|x: int, y: int|
                    0 <= x < y < r@.len() && r@[x].time == r@[y].time implies q[x] < q[y] by {
                    if x == k as int {
                        assert(old_r[k as int].time <= old_r[y - 1].time);
                    } else if x > k as int {
                        assert(q[x] == p[x - 1] && q[y] == p[y - 1]);
                    } else if y > k as int {
                        assert(q[y] == p[y - 1]);
                    }
                }
                p = q;
            }
        } else {
            assert(is_master(all@[i as int]));
        }
        i += 1;
    }
    proof {
        assert(all@.take(all@.len() as int) =~= all@);
        broadcast use vstd::seq_lib::group_filter_ensures;

        assert forall|i: int| 0 <= i < r@.len() implies !is_master(#[trigger] r@[i]) by {
            assert(offered()(without_master(all@)[p[i]]));
        }
    }
    r
}

} // verus!
