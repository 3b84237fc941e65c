//! What each route does with the store, apart from reading the request and
//! writing the reply.
use crate::error::{CustomError, Failure, TextReply, OK};
use crate::store::{is_listing, lookup, views, Store};
use crate::types::pagination::{extract_error, extract_pagination, paginate, requested_window};
use crate::types::params::QueryParams;
use crate::types::question::{Question, QuestionId};
use vstd::prelude::*;

verus! {

/// Whether `r` is a success reply whose text is `text`.
pub open spec fn is_ok_reply(r: TextReply, text: Seq<char>) -> bool {
    r.status == OK && r.text@ == text
}

/// The question stored under `id`.
pub fn get_single_question(id: String, store: &Store) -> (r: Result<Question, Failure>)
    ensures
        match r {
            Ok(q) => lookup(store@, id@) == Some(q@),
            Err(e) => lookup(store@, id@) is None && (e matches Failure::Custom(
                CustomError::QuestionNotFound,
            )),
        },
{
    match store.get(&QuestionId(id)) {
        Some(question) => Ok(question.duplicate()),
        None => Err(Failure::Custom(CustomError::QuestionNotFound)),
    }
}

/// Removes the question stored under `id`.
pub fn delete_question(id: String, store: &mut Store) -> (r: Result<TextReply, Failure>)
    ensures
        final(store)@ == old(store)@.remove(id@),
        match r {
            Ok(reply) => old(store)@.contains_key(id@) && is_ok_reply(reply, "Removed value!"@),
            Err(e) => !old(store)@.contains_key(id@) && (e matches Failure::Custom(
                CustomError::QuestionNotFound,
            )),
        },
{
    match store.delete(&QuestionId(id)) {
        Ok(_) => Ok(TextReply { status: OK, text: "Removed value!".to_owned() }),
        Err(e) => Err(Failure::Custom(e)),
    }
}

/// Replaces the question stored under `id` by `question`.
pub fn update_question(id: String, store: &mut Store, question: Question) -> (r: Result<
    TextReply,
    Failure,
>)
    ensures
        old(store)@.contains_key(id@) ==> final(store)@ == old(store)@.insert(id@, question@),
        !old(store)@.contains_key(id@) ==> final(store)@ == old(store)@,
        match r {
            Ok(reply) => old(store)@.contains_key(id@) && is_ok_reply(reply, "Question updated"@),
            Err(e) => !old(store)@.contains_key(id@) && (e matches Failure::Custom(
                CustomError::QuestionNotFound,
            )),
        },
{
    match store.update(&QuestionId(id), question) {
        Ok(()) => Ok(TextReply { status: OK, text: "Question updated".to_owned() }),
        Err(e) => Err(Failure::Custom(e)),
    }
}

/// Stores `question` under its own identifier, replacing what was there.
pub fn add_question(store: &mut Store, question: Question) -> (r: Result<TextReply, Failure>)
    ensures
        final(store)@ == old(store)@.insert(question.id@, question@),
        r matches Ok(reply) && is_ok_reply(reply, "Question Added!"@),
{
    store.insert(question);
    Ok(TextReply { status: OK, text: "Question Added!".to_owned() })
}

/// Every stored question when there are no query parameters; otherwise the
/// part of the listing that the `start` and `end` parameters select.
pub fn get_questions(params: QueryParams, store: &Store) -> (r: Result<Vec<Question>, Failure>)
    ensures
        params@ == Map::<Seq<char>, Seq<char>>::empty() ==> (r matches Ok(v) && is_listing(
            views(v@),
            store@,
        )),
        params@ != Map::<Seq<char>, Seq<char>>::empty() ==> match requested_window(params@) {
            None => r matches Err(Failure::Custom(e)) && extract_error(params@, e),
            Some((start, end)) => if start <= end <= store@.dom().len() {
                r matches Ok(v) && exists|all: Seq<Question>|
                    #![trigger is_listing(views(all), store@)]
                    is_listing(views(all), store@) && v@ == all.subrange(start as int, end as int)
            } else {
                r matches Err(Failure::InvalidPagination(_))
            },
        },
{
    if !params.is_empty() {
        let pagination = match extract_pagination(params) {
            Ok(p) => p,
            Err(e) => return Err(Failure::Custom(e)),
        };
        let response = store.list();
        match paginate(response, &pagination) {
            Ok(page) => Ok(page),
            Err(e) => Err(Failure::InvalidPagination(e)),
        }
    } else {
        Ok(store.list())
    }
}

} // verus!
