//! One observed process, and the mathematical value it stands for.

use vstd::prelude::*;

verus! {

/// The identity of an account, as the platform gives it: a number where
/// the platform numbers its accounts, a text where it does not. It is a
/// token that is only ever compared for equality; nothing in this crate
/// computes with it, and a number never equals a text.
#[derive(Debug)]
pub enum OwnerId {
    Number(usize),
    Text(String),
}

/// The mathematical content of an [`OwnerId`].
pub enum OwnerToken {
    Number(usize),
    Text(Seq<char>),
}

impl View for OwnerId {
    type V = OwnerToken;

    open spec fn view(&self) -> OwnerToken {
        match *self {
            OwnerId::Number(number) => OwnerToken::Number(number),
            OwnerId::Text(text) => OwnerToken::Text(text@),
        }
    }
}

impl Clone for OwnerId {
    /// The copy stands for the same token as `self`.
    fn clone(&self) -> (copy: Self)
        ensures
            copy@ == self@,
    {
        match self {
            OwnerId::Number(number) => OwnerId::Number(*number),
            OwnerId::Text(text) => OwnerId::Text(text.clone()),
        }
    }
}

impl PartialEq for OwnerId {
    /// Two numbers that are equal, or two texts that are equal.
    fn eq(&self, other: &Self) -> (same: bool) {
        match (self, other) {
            (OwnerId::Number(mine), OwnerId::Number(theirs)) => *mine == *theirs,
            (OwnerId::Text(mine), OwnerId::Text(theirs)) => *mine == *theirs,
            _ => false,
        }
    }
}

impl vstd::std_specs::cmp::PartialEqSpecImpl for OwnerId {
    open spec fn obeys_eq_spec() -> bool {
        true
    }

    open spec fn eq_spec(&self, other: &Self) -> bool {
        self@ == other@
    }
}

/// One process as it was observed at one refresh. `uid` is the identity of
/// the owning account, `username` its name.
#[derive(Debug)]
pub struct ProcessData {
    pub pid: usize,
    pub name: String,
    pub uid: OwnerId,
    pub username: String,
}

/// The mathematical content of a [`ProcessData`]: its four fields, the
/// texts as sequences of characters.
pub struct ProcessEntry {
    pub pid: usize,
    pub name: Seq<char>,
    pub uid: OwnerToken,
    pub username: Seq<char>,
}

impl View for ProcessData {
    type V = ProcessEntry;

    open spec fn view(&self) -> ProcessEntry {
        ProcessEntry {
            pid: self.pid,
            name: self.name@,
            uid: self.uid@,
            username: self.username@,
        }
    }
}

impl DeepView for ProcessData {
    type V = ProcessEntry;

    open spec fn deep_view(&self) -> ProcessEntry {
        self@
    }
}

impl Clone for ProcessData {
    /// The copy stands for the same entry as `self`.
    fn clone(&self) -> (copy: Self)
        ensures
            copy@ == self@,
    {
        ProcessData {
            pid: self.pid,
            name: self.name.clone(),
            uid: self.uid.clone(),
            username: self.username.clone(),
        }
    }
}

impl PartialEq for ProcessData {
    /// Structural equality: all four fields match.
    fn eq(&self, other: &Self) -> (same: bool) {
        self.pid == other.pid && self.name == other.name && self.uid == other.uid
            && self.username == other.username
    }
}

impl vstd::std_specs::cmp::PartialEqSpecImpl for ProcessData {
    open spec fn obeys_eq_spec() -> bool {
        true
    }

    open spec fn eq_spec(&self, other: &Self) -> bool {
        self@ == other@
    }
}

} // verus!
