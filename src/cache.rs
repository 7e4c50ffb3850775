use vstd::prelude::*;
use crate::status::{Status, UNRESOLVED_WORD};

verus! {

/// What a query does after loading the shared cell.
#[derive(Clone, Copy, Debug, PartialEq, Eq, Structural)]
pub enum Step {
    /// The cell is resolved: return this answer, without resolving again.
    Answer(bool),
    /// The cell is unresolved: resolve, publish the answer and return it.
    Resolve,
}

/// The step that a query takes on loading `word`.
pub open spec fn step_for(word: usize) -> Step {
    match Status::of_word(word).answer_of() {
        Some(b) => Step::Answer(b),
        None => Step::Resolve,
    }
}

/// The word that a query publishes after resolving to `fresh`.
pub open spec fn published_word(fresh: bool) -> usize {
    Status::of_answer(fresh).word()
}

/// What a query returns when it loads `word` and, if it has to resolve,
/// the resolution gives `fresh`.
pub open spec fn query_result(word: usize, fresh: bool) -> bool {
    match step_for(word) {
        Step::Answer(b) => b,
        Step::Resolve => fresh,
    }
}

/// The word that the cell holds after such a query, as far as this query
/// alone changes it.
pub open spec fn word_after_query(word: usize, fresh: bool) -> usize {
    match step_for(word) {
        Step::Answer(_) => word,
        Step::Resolve => published_word(fresh),
    }
}

/// Whether `word` is the initial word or one that a caller resolving to
/// `v` leaves: the only words a cell holds when every resolution gives `v`.
pub open spec fn agrees_with(word: usize, v: bool) -> bool {
    Status::of_word(word) is Unresolved || Status::of_word(word) == Status::of_answer(v)
}

/// Decides what a query does with the word it loaded from the cell.
pub fn next_step(word: usize) -> (r: Step)
    ensures
        r == step_for(word),
{
    let status = Status::from_word(word);
    match status.answer() {
        Some(b) => Step::Answer(b),
        None => Step::Resolve,
    }
}

/// The word to store in the cell once the status resolved to `fresh`.
pub fn publish(fresh: bool) -> (w: usize)
    ensures
        w == published_word(fresh),
        Status::of_word(w) == Status::of_answer(fresh),
{
    let status = Status::resolved(fresh);
    status.to_word()
}

/// Returns whether the running executable requires secure execution, given
/// the word just loaded from the process's shared status cell, together with
/// the word to store back into that cell, if any.
///
/// A resolved word answers at once: `resolve_uncached` is not called and
/// nothing is to be stored. An unresolved word calls `resolve_uncached` once
/// and returns its answer with the word that publishes it. Callers that race
/// on an unresolved cell may each resolve and store; as every resolution
/// gives the same answer, they all return it, and the last store changes
/// nothing. No ordering beyond that of the cell itself is needed, so the
/// caller may load and store with relaxed ordering.
pub fn requires_secure_execution<F: FnOnce() -> bool>(word: usize, resolve_uncached: F) -> (r: (
    bool,
    Option<usize>,
))
    requires
        resolve_uncached.requires(()),
    ensures
        step_for(word) matches Step::Answer(b) ==> r == (b, None::<usize>),
        step_for(word) is Resolve ==> resolve_uncached.ensures((), r.0) && r.1 == Some(
            published_word(r.0),
        ),
        r.0 == query_result(word, r.0),
        word_after_query(word, r.0) == match r.1 {
            Some(w) => w,
            None => word,
        },
{
    match next_step(word) {
        Step::Answer(b) => (b, None),
        Step::Resolve => {
            let fresh = resolve_uncached();
            (fresh, Some(publish(fresh)))
        },
    }
}

/// Querying again gives the same answer: after one query, the cell answers
/// a later query with the first query's result, without resolving and
/// without changing, whatever a later resolution would give.
pub proof fn lemma_query_idempotent(word: usize, first: bool, later: bool)
    ensures
        step_for(word_after_query(word, first)) == Step::Answer(query_result(word, first)),
        query_result(word_after_query(word, first), later) == query_result(word, first),
        word_after_query(word_after_query(word, first), later) == word_after_query(word, first),
{
}

/// Once resolved, a cell never sends a query to the resolver again: a query
/// resolves exactly when the word it loads is unresolved, and it leaves a
/// resolved word behind.
pub proof fn lemma_resolved_cell_skips_resolver(word: usize, fresh: bool)
    ensures
        step_for(word) is Resolve <==> Status::of_word(word) is Unresolved,
        step_for(word_after_query(word, fresh)) is Answer,
        step_for(UNRESOLVED_WORD) is Resolve,
{
}

proof fn lemma_held_words_agree(held: Seq<usize>, v: bool, i: int)
    requires
        0 <= i < held.len(),
        forall|k: int|
            0 <= k < held.len() ==> (held[k] == UNRESOLVED_WORD || exists|j: int|
                0 <= j < k && held[k] == word_after_query(held[j], v)),
    ensures
        agrees_with(held[i], v),
    decreases i,
{
    if held[i] != UNRESOLVED_WORD {
        let j = choose|j: int| 0 <= j < i && held[i] == word_after_query(held[j], v);
        lemma_held_words_agree(held, v, j);
    }
}

/// Callers that race on a fresh cell all return the same answer. Let every
/// resolution give `v`, and let `held` list the words the cell holds in
/// turn: the initial word, or one stored by a query that loaded an earlier
/// word. Then every word held agrees with `v`, and a query that loads any of
/// them returns `v`.
pub proof fn lemma_racing_callers_agree(held: Seq<usize>, v: bool)
    requires
        forall|k: int|
            0 <= k < held.len() ==> (held[k] == UNRESOLVED_WORD || exists|j: int|
                0 <= j < k && held[k] == word_after_query(held[j], v)),
    ensures
        forall|i: int| 0 <= i < held.len() ==> agrees_with(#[trigger] held[i], v),
        forall|i: int| 0 <= i < held.len() ==> query_result(#[trigger] held[i], v) == v,
{
    assert forall|i: int| 0 <= i < held.len() implies agrees_with(#[trigger] held[i], v)
        && query_result(held[i], v) == v by {
        lemma_held_words_agree(held, v, i);
    }
}

} // verus!
