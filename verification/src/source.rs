//! From what the operating system reports of each process to the entries of
//! a snapshot. A process whose owner cannot be fully resolved is left out.

use vstd::prelude::*;
use crate::diff::entries_of;
use crate::process_data::{OwnerId, OwnerToken, ProcessData, ProcessEntry};

verus! {

/// The id of a process's owner as the platform printed it.
#[derive(Debug)]
pub enum RawUid {
    /// The text of an id on a platform that numbers its accounts: it is
    /// still to be read as a decimal number.
    Decimal(String),
    /// The text of an id on a platform whose ids are no numbers: it is
    /// taken as it stands.
    Opaque(String),
}

/// The mathematical content of a [`RawUid`].
pub enum ObservedUid {
    Decimal(Seq<char>),
    Opaque(Seq<char>),
}

impl View for RawUid {
    type V = ObservedUid;

    open spec fn view(&self) -> ObservedUid {
        match *self {
            RawUid::Decimal(text) => ObservedUid::Decimal(text@),
            RawUid::Opaque(text) => ObservedUid::Opaque(text@),
        }
    }
}

/// What was read of one process: its pid and name, its owner's id where
/// the process has one, and the owner's account name where that id is
/// known to the system.
#[derive(Debug)]
pub struct RawProcess {
    pub pid: u32,
    pub name: String,
    pub uid: Option<RawUid>,
    pub username: Option<String>,
}

/// The mathematical content of a [`RawProcess`].
pub struct Observation {
    pub pid: u32,
    pub name: Seq<char>,
    pub uid: Option<ObservedUid>,
    pub username: Option<Seq<char>>,
}

impl View for RawProcess {
    type V = Observation;

    open spec fn view(&self) -> Observation {
        Observation {
            pid: self.pid,
            name: self.name@,
            uid: match self.uid {
                Some(uid) => Some(uid@),
                None => None,
            },
            username: match self.username {
                Some(text) => Some(text@),
                None => None,
            },
        }
    }
}

/// The value of a decimal digit; `None` for any other character.
pub open spec fn digit_value(c: char) -> Option<nat> {
    if '0' <= c <= '9' {
        Some((c as nat - '0' as nat) as nat)
    } else {
        None
    }
}

/// The number that a run of decimal digits writes, the empty run writing
/// zero; `None` where a character is no digit.
pub open spec fn decimal(digits: Seq<char>) -> Option<nat>
    decreases digits.len(),
{
    if digits.len() == 0 {
        Some(0)
    } else {
        match (decimal(digits.drop_last()), digit_value(digits.last())) {
            (Some(high), Some(low)) => Some(10 * high + low),
            _ => None,
        }
    }
}

/// The user id that `text` writes: an optional `+`, then at least one
/// decimal digit and nothing else, the number being no larger than
/// `usize::MAX`. Any other text writes none.
pub open spec fn uid_of(text: Seq<char>) -> Option<usize> {
    let digits = if text.len() > 0 && text[0] == '+' {
        text.drop_first()
    } else {
        text
    };
    if digits.len() == 0 {
        None
    } else {
        match decimal(digits) {
            Some(value) => if value <= usize::MAX {
                Some(value as usize)
            } else {
                None
            },
            None => None,
        }
    }
}

/// A run of digits that extends another writes a number that is no smaller.
proof fn lemma_decimal_grows(digits: Seq<char>, k: int)
    requires
        0 <= k <= digits.len(),
        decimal(digits) is Some,
    ensures
        decimal(digits.take(k)) is Some,
        decimal(digits.take(k))->0 <= decimal(digits)->0,
    decreases digits.len() - k,
{
    if k == digits.len() {
        assert(digits.take(k) =~= digits);
    } else {
        lemma_decimal_grows(digits.drop_last(), k);
        assert(digits.drop_last().take(k) =~= digits.take(k));
    }
}

/// Where a prefix of a text is no run of digits, neither is the text.
proof fn lemma_decimal_fails(digits: Seq<char>, k: int)
    requires
        0 <= k <= digits.len(),
        decimal(digits.take(k)) is None,
    ensures
        decimal(digits) is None,
    decreases digits.len() - k,
{
    if k == digits.len() {
        assert(digits.take(k) =~= digits);
    } else {
        assert(digits.drop_last().take(k) =~= digits.take(k));
        lemma_decimal_fails(digits.drop_last(), k);
    }
}

/// Reads a user id from its decimal text.
pub fn parse_uid(text: &str) -> (uid: Option<usize>)
    ensures
        uid == uid_of(text@),
{
    let len: usize = text.unicode_len();
    let start: usize = if len > 0 && text.get_char(0) == '+' {
        1
    } else {
        0
    };
    if start == len {
        return None;
    }
    let ghost digits = if start == 1 {
        text@.drop_first()
    } else {
        text@
    };
    let mut value: usize = 0;
    let mut i: usize = start;
    proof {
        assert(digits.take(0) =~= Seq::empty());
    }
    while i < len
        invariant
            start <= i <= len,
            len == text@.len(),
            digits.len() == len - start,
            digits.len() > 0,
            digits == if text@.len() > 0 && text@[0] == '+' {
                text@.drop_first()
            } else {
                text@
            },
            forall|j: int| 0 <= j < digits.len() ==> digits[j] == text@[j + start],
            decimal(digits.take(i - start)) == Some(value as nat),
        decreases len - i,
    {
        let c: char = text.get_char(i);
        proof {
            assert(digits.take(i - start + 1).drop_last() =~= digits.take(i - start));
            assert(digits.take(i - start + 1).last() == c);
        }
        if c < '0' || c > '9' {
            proof {
                assert(decimal(digits.take(i - start + 1)) is None);
                lemma_decimal_fails(digits, i - start + 1);
            }
            return None;
        }
        let low: usize = (c as u32 - '0' as u32) as usize;
        let next: Option<usize> = match value.checked_mul(10) {
            Some(tenfold) => tenfold.checked_add(low),
            None => None,
        };
        match next {
            Some(sum) => {
                value = sum;
            },
            None => {
                proof {
                    assert(decimal(digits.take(i - start + 1)) == Some(
                        (10 * value + low) as nat,
                    ));
                    if decimal(digits) is Some {
                        lemma_decimal_grows(digits, i - start + 1);
                    }
                }
                return None;
            },
        }
        i += 1;
    }
    proof {
        assert(digits.take(i - start) =~= digits);
    }
    Some(value)
}

/// The token that an observed id gives: the number that a decimal text
/// writes, if it writes one, or an opaque text as it stands.
pub open spec fn owner_of(uid: ObservedUid) -> Option<OwnerToken> {
    match uid {
        ObservedUid::Decimal(text) => match uid_of(text) {
            Some(number) => Some(OwnerToken::Number(number)),
            None => None,
        },
        ObservedUid::Opaque(text) => Some(OwnerToken::Text(text)),
    }
}

/// The entry that an observation resolves to: its owner's id must be there
/// and give a token, and the owner's account name must be known.
pub open spec fn resolved(seen: Observation) -> Option<ProcessEntry> {
    match (seen.uid, seen.username) {
        (Some(observed_uid), Some(username)) => match owner_of(observed_uid) {
            Some(uid) => Some(
                ProcessEntry { pid: seen.pid as usize, name: seen.name, uid, username },
            ),
            None => None,
        },
        _ => None,
    }
}

/// The observations that a list of raw processes stands for, in its order.
pub open spec fn observations_of(list: Seq<RawProcess>) -> Seq<Observation> {
    Seq::new(list.len(), |i: int| list[i]@)
}

/// The snapshot that a round of observations gives: the entries of those
/// that resolve, in the order in which they were observed.
pub open spec fn snapshot_from(observed: Seq<Observation>) -> Seq<ProcessEntry> {
    observed.filter_map(|seen: Observation| resolved(seen))
}

/// Reads the owner's token from an observed id.
pub fn owner_id(uid: &RawUid) -> (owner: Option<OwnerId>)
    ensures
        match owner {
            Some(id) => owner_of(uid@) == Some(id@),
            None => owner_of(uid@) is None,
        },
{
    match uid {
        RawUid::Decimal(text) => match parse_uid(text.as_str()) {
            Some(number) => Some(OwnerId::Number(number)),
            None => None,
        },
        RawUid::Opaque(text) => Some(OwnerId::Text(text.clone())),
    }
}

/// Turns one observation into an entry, or leaves it out.
pub fn resolve(raw: &RawProcess) -> (entry: Option<ProcessData>)
    ensures
        match entry {
            Some(data) => resolved(raw@) == Some(data@),
            None => resolved(raw@) is None,
        },
{
    let uid: OwnerId = match &raw.uid {
        Some(observed) => match owner_id(observed) {
            Some(uid) => uid,
            None => {
                return None;
            },
        },
        None => {
            return None;
        },
    };
    match &raw.username {
        Some(username) => Some(
            ProcessData {
                pid: raw.pid as usize,
                name: raw.name.clone(),
                uid,
                username: username.clone(),
            },
        ),
        None => None,
    }
}

/// The snapshot of one refresh, from what was read of every process.
/// Observations that do not resolve are dropped without notice.
pub fn get_process_list(observed: &Vec<RawProcess>) -> (snapshot: Vec<ProcessData>)
    ensures
        entries_of(snapshot@) == snapshot_from(observations_of(observed@)),
{
    let ghost all = observations_of(observed@);
    let ghost keep = |seen: Observation| resolved(seen);
    let mut snapshot: Vec<ProcessData> = Vec::new();
    let mut i: usize = 0;
    proof {
        assert(all.take(0) =~= Seq::empty());
        assert(entries_of(snapshot@) =~= Seq::empty());
    }
    while i < observed.len()
        invariant
            i <= observed.len(),
            all == observations_of(observed@),
            keep == |seen: Observation| resolved(seen),
            entries_of(snapshot@) == all.take(i as int).filter_map(keep),
        decreases observed.len() - i,
    {
        let ghost before = entries_of(snapshot@);
        proof {
            all.lemma_filter_map_take_succ(keep, i as int);
        }
        match resolve(&observed[i]) {
            Some(data) => {
                snapshot.push(data);
                assert(entries_of(snapshot@) =~= before + seq![data@]);
            },
            None => {
                assert(before + Seq::<ProcessEntry>::empty() =~= before);
            },
        }
        i += 1;
    }
    proof {
        assert(all.take(i as int) =~= all);
    }
    snapshot
}

} // verus!
