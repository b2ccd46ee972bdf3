//! The decisions of the two endpoints. The server around them reads each
//! request, performs the store's insert when asked to, and sends the reply.
use vstd::prelude::*;

use crate::form::{
    field_of, form_pairs, is_blank, outcome_view, submission_of, values_of, Field, FormData,
    FormError,
};

verus! {

/// The statuses that the endpoints answer with.
#[derive(Clone, Copy, Debug, PartialEq, Eq)]
pub enum Status {
    Success,
    BadRequest,
    ServerError,
}

pub open spec fn status_code(s: Status) -> u16 {
    match s {
        Status::Success => 200,
        Status::BadRequest => 400,
        Status::ServerError => 500,
    }
}

impl Status {
    /// The HTTP status code.
    pub fn code(&self) -> (r: u16)
        ensures
            r == status_code(*self),
    {
        match self {
            Status::Success => 200,
            Status::BadRequest => 400,
            Status::ServerError => 500,
        }
    }
}

/// A reply: a status and a body.
pub struct Reply {
    pub status: Status,
    pub body: Vec<u8>,
}

/// A reply with the given status and an empty body.
pub fn empty_reply(status: Status) -> (r: Reply)
    ensures
        r.status == status,
        r.body@.len() == 0,
{
    Reply { status, body: Vec::new() }
}

/// The liveness probe: success with an empty body. It reads no state, so the
/// store being out of reach cannot change it.
pub fn health_check() -> (r: Reply)
    ensures
        r.status == Status::Success,
        r.body@.len() == 0,
{
    empty_reply(Status::Success)
}

/// What a subscription request leads to: a reply at once, or a record to
/// insert into the store before replying.
pub enum SubscribeStep {
    Respond(Reply),
    Store(FormData),
}

/// The record that a subscription outcome stores, if any.
pub open spec fn stored_by(sub: Result<(Seq<char>, Seq<char>), FormError>) -> Option<
    (Seq<char>, Seq<char>),
> {
    match sub {
        Ok(v) => Some(v),
        Err(_) => None,
    }
}

pub open spec fn step_record(s: SubscribeStep) -> Option<(Seq<char>, Seq<char>)> {
    match s {
        SubscribeStep::Store(f) => Some(f@),
        SubscribeStep::Respond(_) => None,
    }
}

/// A rejection: a client error with an empty body.
pub open spec fn is_rejection(s: SubscribeStep) -> bool {
    match s {
        SubscribeStep::Respond(r) => r.status == Status::BadRequest && r.body@.len() == 0,
        SubscribeStep::Store(_) => false,
    }
}

/// The step for an already extracted submission: store it, or reject it
/// before any insert.
pub fn subscribe_with(form: Result<FormData, FormError>) -> (r: SubscribeStep)
    ensures
        step_record(r) == stored_by(outcome_view(form)),
        form is Err ==> is_rejection(r),
{
    match form {
        Ok(f) => SubscribeStep::Store(f),
        Err(_) => SubscribeStep::Respond(empty_reply(Status::BadRequest)),
    }
}

/// The step for a request body of the subscription endpoint.
pub fn subscribe(body: &[u8]) -> (r: SubscribeStep)
    ensures
        step_record(r) == stored_by(submission_of(form_pairs(body@))),
        !(r is Store) ==> is_rejection(r),
        body@.len() == 0 ==> is_rejection(r),
{
    subscribe_with(FormData::parse(body))
}

/// The reply once the store's insert has been tried: success when it stored
/// the record, a server error when it failed.
pub fn after_insert(stored: bool) -> (r: Reply)
    ensures
        r.status == (if stored {
            Status::Success
        } else {
            Status::ServerError
        }),
        r.body@.len() == 0,
{
    if stored {
        empty_reply(Status::Success)
    } else {
        empty_reply(Status::ServerError)
    }
}

/// A body that carries exactly one non-blank name and exactly one non-blank
/// email is stored with exactly those two values: `subscribe` then returns a
/// step holding that record, and the reply after the insert is a success when
/// the insert stored it and a server error when it failed.
pub proof fn lemma_complete_submission_stored(body: Seq<u8>, name: Seq<char>, email: Seq<char>)
    requires
        values_of(form_pairs(body), Field::Name.key()) == seq![name],
        values_of(form_pairs(body), Field::Email.key()) == seq![email],
        !is_blank(name),
        !is_blank(email),
    ensures
        stored_by(submission_of(form_pairs(body))) == Some((name, email)),
{
    let pairs = form_pairs(body);
    assert(field_of(pairs, Field::Name) == Ok::<Seq<char>, FormError>(name));
    assert(field_of(pairs, Field::Email) == Ok::<Seq<char>, FormError>(email));
}

/// A body that lacks the name, the email or both (an empty body) stores
/// nothing: `subscribe` then rejects it with a client error and no insert.
pub proof fn lemma_incomplete_submission_rejected(body: Seq<u8>)
    requires
        values_of(form_pairs(body), Field::Name.key()).len() == 0 || values_of(
            form_pairs(body),
            Field::Email.key(),
        ).len() == 0,
    ensures
        stored_by(submission_of(form_pairs(body))) is None,
{
}

} // verus!
