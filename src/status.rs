use vstd::prelude::*;

verus! {

/// Word that stands for `Status::NotRequired` in the shared cell.
pub const NOT_REQUIRED_WORD: usize = 0;

/// Word that stands for `Status::Required` in the shared cell.
pub const REQUIRED_WORD: usize = 1;

/// Word that a fresh shared cell holds: nothing has been resolved yet.
pub const UNRESOLVED_WORD: usize = 2;

/// The secure-execution status of the process as the cache knows it.
#[derive(Clone, Copy, Debug, PartialEq, Eq, Structural)]
pub enum Status {
    /// No caller has resolved the status yet.
    Unresolved,
    /// Resolved: secure execution is not required.
    NotRequired,
    /// Resolved: secure execution is required.
    Required,
}

impl Status {
    /// The status that a word of the shared cell stands for. Only the two
    /// resolved words mean a resolved status; every other word means that
    /// the status is still to be resolved.
    pub open spec fn of_word(w: usize) -> Status {
        if w == NOT_REQUIRED_WORD {
            Status::NotRequired
        } else if w == REQUIRED_WORD {
            Status::Required
        } else {
            Status::Unresolved
        }
    }

    /// The word that stores this status in the shared cell.
    pub open spec fn word(self) -> usize {
        match self {
            Status::Unresolved => UNRESOLVED_WORD,
            Status::NotRequired => NOT_REQUIRED_WORD,
            Status::Required => REQUIRED_WORD,
        }
    }

    /// The resolved status that holds the answer `b`.
    pub open spec fn of_answer(b: bool) -> Status {
        if b {
            Status::Required
        } else {
            Status::NotRequired
        }
    }

    /// The answer that a resolved status holds; `None` while unresolved.
    pub open spec fn answer_of(self) -> Option<bool> {
        match self {
            Status::Unresolved => None,
            Status::NotRequired => Some(false),
            Status::Required => Some(true),
        }
    }

    pub fn from_word(w: usize) -> (r: Status)
        ensures
            r == Status::of_word(w),
    {
        if w == NOT_REQUIRED_WORD {
            Status::NotRequired
        } else if w == REQUIRED_WORD {
            Status::Required
        } else {
            Status::Unresolved
        }
    }

    pub fn to_word(&self) -> (r: usize)
        ensures
            r == self.word(),
    {
        match self {
            Status::Unresolved => UNRESOLVED_WORD,
            Status::NotRequired => NOT_REQUIRED_WORD,
            Status::Required => REQUIRED_WORD,
        }
    }

    pub fn resolved(b: bool) -> (r: Status)
        ensures
            r == Status::of_answer(b),
    {
        if b {
            Status::Required
        } else {
            Status::NotRequired
        }
    }

    pub fn answer(&self) -> (r: Option<bool>)
        ensures
            r == self.answer_of(),
    {
        match self {
            Status::Unresolved => None,
            Status::NotRequired => Some(false),
            Status::Required => Some(true),
        }
    }

    pub fn is_resolved(&self) -> (r: bool)
        ensures
            r == !(self is Unresolved),
    {
        !matches!(self, Status::Unresolved)
    }
}

/// Storing a status and reading it back gives the same status.
pub proof fn lemma_word_round_trip(s: Status)
    ensures
        Status::of_word(s.word()) == s,
{
}

/// A resolved status gives back the answer it was made from, and only the
/// unresolved status holds no answer.
pub proof fn lemma_answer_round_trip(b: bool, s: Status)
    ensures
        Status::of_answer(b).answer_of() == Some(b),
        s.answer_of() is None <==> s is Unresolved,
        s.answer_of() matches Some(a) ==> s == Status::of_answer(a),
{
}

} // verus!
