//! A model of the tuple service, to say what the client and the operations
//! on todos come to against a service that behaves.
//!
//! The service is taken to hold a set of facts. A write that it answers with
//! success has put the fact into the set. A question about a fact that it
//! holds, it answers with "allowed", or by listing that fact where it has no
//! form of the check endpoint. Nothing here is assumed of the real service:
//! the laws below say what follows where a run of replies fits the model.

use vstd::prelude::*;
use crate::http::{Fetched, ServiceError};
use crate::json::json_rendered;
use crate::keto::{
    check_move, check_outcome, check_verdict, creation_result, listing_result, tuple_object,
    CheckModel, CheckMove, CheckState, KetoClient, Verdict,
};
use crate::todo_repo::{owner, ownership_check, record_owner, todos, user_subject};
use crate::text::signed_decimal;

verus! {

/// A fact with a direct subject: the subject holds the relation on the
/// object within the namespace.
pub struct Fact {
    pub namespace: Seq<char>,
    pub object: Seq<char>,
    pub relation: Seq<char>,
    pub subject_id: Seq<char>,
}

/// The fact that a question with a direct subject asks about.
pub open spec fn asked(p: CheckModel) -> Option<Fact> {
    match p.subject_id {
        Some(subject_id) => Some(
            Fact { namespace: p.namespace, object: p.object, relation: p.relation, subject_id },
        ),
        None => None,
    }
}

/// The fact that a creation records: the user owns the row.
pub open spec fn ownership(user_id: Seq<char>, id: i64) -> Fact {
    Fact {
        namespace: todos(),
        object: signed_decimal(id as int),
        relation: owner(),
        subject_id: user_subject(user_id),
    }
}

/// The service holds the fact that `p` asks about.
pub open spec fn holds(facts: Set<Fact>, p: CheckModel) -> bool {
    asked(p) is Some && facts.contains(asked(p).unwrap())
}

/// The facts after a write: a fact whose write was answered with success is
/// held from then on.
pub open spec fn after_write(facts: Set<Fact>, fact: Fact, written: Fetched) -> Set<Fact> {
    if creation_result(written) is Ok {
        facts.insert(fact)
    } else {
        facts
    }
}

/// `f` is how a service that holds `facts` and is in working order answers
/// the request that a check sends on entering `state`: a form of the check
/// endpoint is missing or says "allowed" for a fact that is held; the
/// listing lists a fact that is held.
pub open spec fn answers(facts: Set<Fact>, p: CheckModel, state: CheckState, f: Fetched) -> bool {
    match state {
        CheckState::Candidate(_) => match check_verdict(f) {
            Verdict::Success(allowed) => holds(facts, p) ==> allowed,
            Verdict::TryNext => true,
            Verdict::Fatal(_) => false,
        },
        CheckState::Fallback => match listing_result(f) {
            Ok(page) => holds(facts, p) ==> page.tuples.len() > 0,
            Err(_) => false,
        },
    }
}

/// `replies` is a run of such answers that takes a check from `state` to
/// its end.
pub open spec fn serves(
    facts: Set<Fact>,
    p: CheckModel,
    state: CheckState,
    replies: Seq<Fetched>,
) -> bool
    decreases replies.len(),
{
    &&& replies.len() > 0
    &&& answers(facts, p, state, replies[0])
    &&& match check_move(state, replies[0]) {
        CheckMove::Finish(_) => true,
        CheckMove::Wait(next) => serves(facts, p, next, replies.drop_first()),
    }
}

/// Against a service in working order, a check about a fact that the
/// service holds answers "allowed", whichever forms of the check endpoint
/// the service has.
pub proof fn lemma_held_fact_is_allowed(
    facts: Set<Fact>,
    p: CheckModel,
    state: CheckState,
    replies: Seq<Fetched>,
)
    requires
        holds(facts, p),
        serves(facts, p, state, replies),
    ensures
        check_outcome(state, replies) == Some(Ok::<bool, ServiceError>(true)),
    decreases replies.len(),
{
    match check_move(state, replies[0]) {
        CheckMove::Finish(_) => {},
        CheckMove::Wait(next) => {
            lemma_held_fact_is_allowed(facts, p, next, replies.drop_first());
        },
    }
}

/// A user owns what the user has just created: where the write of the
/// ownership record was answered with success, a check of that user on the
/// new row answers "allowed". The record that the creation writes is the
/// fact that the check asks about.
pub proof fn lemma_creator_is_owner(
    before: Set<Fact>,
    keto: KetoClient,
    user_id: Seq<char>,
    id: i64,
    written: Fetched,
    replies: Seq<Fetched>,
)
    requires
        creation_result(written) is Ok,
        serves(
            after_write(before, ownership(user_id, id), written),
            ownership_check(user_id, id),
            CheckState::Candidate(0),
            replies,
        ),
    ensures
        asked(ownership_check(user_id, id)) == Some(ownership(user_id, id)),
        record_owner(keto, user_id, id).body == Some(
            json_rendered(
                tuple_object(
                    ownership(user_id, id).namespace,
                    ownership(user_id, id).object,
                    ownership(user_id, id).relation,
                    ownership(user_id, id).subject_id,
                ),
            ),
        ),
        check_outcome(CheckState::Candidate(0), replies) == Some(Ok::<bool, ServiceError>(true)),
{
    lemma_held_fact_is_allowed(
        after_write(before, ownership(user_id, id), written),
        ownership_check(user_id, id),
        CheckState::Candidate(0),
        replies,
    );
}

} // verus!
