//! One round of the polling loop: given the local commit hash and the
//! hosting tool's raw response, decide whether the pull request has
//! caught up, should be asked again later, or the response is beyond
//! help. The binary runs the rounds under its backoff policy.

use vstd::prelude::*;
use crate::json::{
    JsonData, commit_oids_of_doc, data_of, parse_json, parsed_json, spec_commit_oids,
};
use crate::text::bytes_eq;

verus! {

/// What one polling round found.
#[derive(Clone, Copy, Debug, PartialEq, Eq)]
pub enum PollOutcome {
    /// The pull request's newest commit equals the local one: done.
    UpToDate,
    /// The response is in shape but the newest commit differs, or no
    /// commit is listed yet: ask again after a delay.
    NotYet,
    /// The response is malformed or of the wrong shape: give up at once.
    BadResponse,
}

/// What a polling round decides: up to date exactly when the response is
/// a well-formed pull-request document whose last commit hash equals the
/// local one; fatal when it is malformed or ill-shaped; transient
/// otherwise, an empty commit list included.
pub open spec fn spec_poll_outcome(local: Seq<u8>, body: Seq<u8>) -> PollOutcome {
    match parsed_json(body) {
        Option::None => PollOutcome::BadResponse,
        Option::Some(d) => match spec_commit_oids(d) {
            Option::None => PollOutcome::BadResponse,
            Option::Some(oids) => if oids.len() > 0 && oids.last() == local {
                PollOutcome::UpToDate
            } else {
                PollOutcome::NotYet
            },
        },
    }
}

/// Judges one polling round from the hosting tool's response body.
pub fn poll_outcome(local: &[u8], body: &[u8]) -> (r: PollOutcome)
    ensures
        r == spec_poll_outcome(local@, body@),
{
    let doc = match parse_json(body) {
        Ok(v) => v,
        Err(_) => { return PollOutcome::BadResponse; },
    };
    let oids = match commit_oids_of_doc(&doc) {
        Some(o) => o,
        None => { return PollOutcome::BadResponse; },
    };
    if oids.len() > 0 {
        let last = &oids[oids.len() - 1];
        if bytes_eq(last.as_slice(), local) {
            return PollOutcome::UpToDate;
        }
    }
    PollOutcome::NotYet
}

/// An empty commit list never counts as up to date: whatever the local
/// commit is, the round is judged transient and retried.
pub proof fn empty_commit_list_retries(local: Seq<u8>, body: Seq<u8>, d: JsonData)
    requires
        parsed_json(body) == Some(d),
        spec_commit_oids(d) == Some(Seq::<Seq<u8>>::empty()),
    ensures
        spec_poll_outcome(local, body) == PollOutcome::NotYet,
{
}

/// A malformed response is fatal for every local commit: the round is
/// never judged transient, so it is not retried.
pub proof fn malformed_response_is_fatal(local: Seq<u8>, body: Seq<u8>)
    requires
        parsed_json(body) is None,
    ensures
        spec_poll_outcome(local, body) == PollOutcome::BadResponse,
{
}

/// Only the last listed commit decides the round: it is up to date
/// exactly when the list is non-empty and ends in the local hash, no
/// matter what stands earlier in the list.
pub proof fn last_commit_decides(local: Seq<u8>, body: Seq<u8>, d: JsonData, oids: Seq<Seq<u8>>)
    requires
        parsed_json(body) == Some(d),
        spec_commit_oids(d) == Some(oids),
    ensures
        (spec_poll_outcome(local, body) == PollOutcome::UpToDate) <==> (oids.len() > 0
            && oids.last() == local),
        spec_poll_outcome(local, body) != PollOutcome::BadResponse,
{
}

} // verus!
