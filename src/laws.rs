//! Properties that hold across the store's operations, the pagination window
//! and the failure mapping, stated over the models that the operations'
//! contracts use.
use crate::error::{failure_message, status_of, CustomError, Failure, RANGE_NOT_SATISFIABLE};
use crate::store::{lookup, StoreView};
use crate::types::pagination::{extract_error, requested_window, window};
use crate::types::question::QuestionView;
use vstd::prelude::*;

verus! {

/// The store after adding each of `qs` in turn, each under its own identifier.
pub open spec fn after_adds(m: StoreView, qs: Seq<QuestionView>) -> StoreView
    decreases qs.len(),
{
    if qs.len() == 0 {
        m
    } else {
        let last = qs.last();
        after_adds(m, qs.drop_last()).insert(last.id, last)
    }
}

/// A question that was added can be read back under its identifier with the
/// same title, content and tags.
pub proof fn lemma_add_then_get(m: StoreView, q: QuestionView)
    ensures
        lookup(m.insert(q.id, q), q.id) == Some(q),
{
}

/// An identifier under which nothing was ever added is not found, and that
/// failure is answered with status 416 and the text "Question not found".
pub proof fn lemma_never_added_is_not_found(m: StoreView, qs: Seq<QuestionView>, id: Seq<char>)
    requires
        !m.contains_key(id),
        forall|i: int| 0 <= i < qs.len() ==> (#[trigger] qs[i]).id != id,
    ensures
        lookup(after_adds(m, qs), id) is None,
        status_of(Failure::Custom(CustomError::QuestionNotFound)) == RANGE_NOT_SATISFIABLE,
        failure_message(Failure::Custom(CustomError::QuestionNotFound), "Question not found"@),
    decreases qs.len(),
{
    if qs.len() > 0 {
        let rest = qs.drop_last();
        assert forall|i: int| 0 <= i < rest.len() implies (#[trigger] rest[i]).id != id by {
            assert(rest[i] == qs[i]);
        }
        lemma_never_added_is_not_found(m, rest, id);
    }
}

/// After a question is deleted, reading it is not found.
pub proof fn lemma_delete_then_get(m: StoreView, id: Seq<char>)
    ensures
        lookup(m.remove(id), id) is None,
{
}

/// The window `0..n` of a listing of length `n` is the whole listing; a
/// reversed window or one that ends past the listing is refused; and the
/// window `2..2` is empty wherever the listing has at least two items.
pub proof fn lemma_window<T>(s: Seq<T>, start: int, end: int)
    ensures
        window(s, 0, s.len() as int) == Some(s),
        start > end || end > s.len() ==> window(s, start, end) is None,
        s.len() >= 2 ==> window(s, 2, 2) == Some(Seq::<T>::empty()),
{
    assert(s.subrange(0, s.len() as int) =~= s);
    assert(s.len() >= 2 ==> s.subrange(2, 2) =~= Seq::<T>::empty());
}

/// With `start` given and `end` missing, reading the window fails with
/// `MissingParameters` and nothing else.
pub proof fn lemma_missing_end(params: Map<Seq<char>, Seq<char>>, e: CustomError)
    requires
        params.contains_key("start"@),
        !params.contains_key("end"@),
    ensures
        requested_window(params) is None,
        extract_error(params, e) <==> e is MissingParameters,
{
}

/// Writes to two different identifiers do not disturb each other: in either
/// order the store ends the same, holding both questions.
pub proof fn lemma_disjoint_writes(m: StoreView, q1: QuestionView, q2: QuestionView)
    requires
        q1.id != q2.id,
    ensures
        m.insert(q1.id, q1).insert(q2.id, q2) == m.insert(q2.id, q2).insert(q1.id, q1),
        lookup(m.insert(q1.id, q1).insert(q2.id, q2), q1.id) == Some(q1),
        lookup(m.insert(q1.id, q1).insert(q2.id, q2), q2.id) == Some(q2),
{
    assert(m.insert(q1.id, q1).insert(q2.id, q2) =~= m.insert(q2.id, q2).insert(q1.id, q1));
}

/// Of two writes to the same identifier, the later one wins.
pub proof fn lemma_last_writer_wins(m: StoreView, q1: QuestionView, q2: QuestionView)
    requires
        q1.id == q2.id,
    ensures
        m.insert(q1.id, q1).insert(q2.id, q2) == m.insert(q2.id, q2),
{
    assert(m.insert(q1.id, q1).insert(q2.id, q2) =~= m.insert(q2.id, q2));
}

} // verus!
