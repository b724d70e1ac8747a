use vstd::prelude::*;

use crate::clock::now_millis;
use crate::crypto::{condition_matches, sha256, sha256_of};
use crate::packet::{is_invalid_fulfillment_reject, is_timed_out_reject, Fulfill, Prepare, Reject};

verus! {

/// The bound on an outgoing request, in milliseconds, when the packet's
/// remaining lifetime cannot be expressed as a duration.
pub const FALLBACK_TIMEOUT_MS: u64 = 30000;

/// What to do with an incoming Prepare.
#[derive(Debug)]
pub enum IncomingAction {
    /// Hand the request to the next handler and return its result as it is.
    Forward,
    /// Answer at once with this Reject; the next handler is not called.
    Respond(Reject),
}

/// What to do with an outgoing Prepare.
#[derive(Debug)]
pub enum OutgoingAction {
    /// Send the request to the next handler, and give up on it after
    /// `timeout_ms` milliseconds.
    Forward { timeout_ms: u64 },
    /// Answer at once with this Reject; the next handler is not called.
    Respond(Reject),
}

/// How the wait for the next handler of an outgoing request ended.
#[derive(Debug)]
pub enum DownstreamEvent {
    /// The next handler answered first.
    Resolved(Result<Fulfill, Reject>),
    /// The timer fired first; the downstream answer is abandoned.
    TimedOut,
}

/// Milliseconds from `now` until the Prepare expires (negative once past).
pub open spec fn time_left(prepare: Prepare, now: i64) -> int {
    prepare.expires_at - now
}

/// The bound put on an outgoing request that has `time_left` milliseconds
/// to live: that lifetime, or the fallback where it is no duration.
pub open spec fn deadline_for(time_left: int) -> u64 {
    if 0 <= time_left <= u64::MAX {
        time_left as u64
    } else {
        FALLBACK_TIMEOUT_MS
    }
}

/// `a` is the action owed to an incoming `prepare` at instant `now`.
pub open spec fn incoming_decided(prepare: Prepare, now: i64, a: IncomingAction) -> bool {
    if prepare.expires_at >= now {
        a is Forward
    } else {
        a matches IncomingAction::Respond(r) && is_timed_out_reject(r)
    }
}

/// `a` is the action owed to an outgoing `prepare` at instant `now`.
pub open spec fn outgoing_decided(prepare: Prepare, now: i64, a: OutgoingAction) -> bool {
    if time_left(prepare, now) <= 0 {
        a matches OutgoingAction::Respond(r) && is_timed_out_reject(r)
    } else {
        a == (OutgoingAction::Forward { timeout_ms: deadline_for(time_left(prepare, now)) })
    }
}

/// `r` is the answer owed to the caller of an outgoing request with
/// execution condition `condition`, once the wait ended with `event`.
pub open spec fn outgoing_resolved(
    condition: Seq<u8>,
    event: DownstreamEvent,
    r: Result<Fulfill, Reject>,
) -> bool {
    match event {
        DownstreamEvent::TimedOut => r matches Err(rej) && is_timed_out_reject(rej),
        DownstreamEvent::Resolved(Err(rej)) => r == Err::<Fulfill, Reject>(rej),
        DownstreamEvent::Resolved(Ok(f)) => if sha256_of(f.fulfillment@) == condition {
            r == Ok::<Fulfill, Reject>(f)
        } else {
            r matches Err(rej) && is_invalid_fulfillment_reject(rej)
        },
    }
}

/// The bound for an outgoing request with `time_left` milliseconds to live.
pub fn deadline(time_left: i128) -> (r: u64)
    ensures
        r == deadline_for(time_left as int),
{
    if 0 <= time_left && time_left <= u64::MAX as i128 {
        time_left as u64
    } else {
        FALLBACK_TIMEOUT_MS
    }
}

/// Keeps `fulfill` where `digest`, the hash of its preimage, equals
/// `condition`; otherwise replaces it by an `F09` Reject.
pub fn check_fulfillment(fulfill: Fulfill, digest: &[u8; 32], condition: &[u8; 32]) -> (r: Result<
    Fulfill,
    Reject,
>)
    ensures
        digest@ == condition@ ==> r == Ok::<Fulfill, Reject>(fulfill),
        digest@ != condition@ ==> (r matches Err(rej) && is_invalid_fulfillment_reject(rej)),
{
    if condition_matches(digest, condition) {
        Ok(fulfill)
    } else {
        Err(Reject::invalid_fulfillment())
    }
}

/// The answer to the caller of an outgoing request whose Prepare had
/// execution condition `condition`, once the wait ended with `event`:
/// a downstream Reject as it is, a Fulfill whose preimage hashes to the
/// condition as it is, an `F09` Reject for any other Fulfill, and an
/// `R00` Reject when the timer fired first.
pub fn outgoing_outcome(condition: &[u8; 32], event: DownstreamEvent) -> (r: Result<
    Fulfill,
    Reject,
>)
    ensures
        outgoing_resolved(condition@, event, r),
{
    match event {
        DownstreamEvent::TimedOut => Err(Reject::timed_out()),
        DownstreamEvent::Resolved(Err(reject)) => Err(reject),
        DownstreamEvent::Resolved(Ok(fulfill)) => {
            let digest = sha256(&fulfill.fulfillment);
            check_fulfillment(fulfill, &digest, condition)
        },
    }
}

/// A middleware handler that validates Prepare packets on their way to
/// `next`, and, for outgoing requests, the Fulfill that comes back.
/// It keeps no state besides `next`.
#[derive(Clone, Debug)]
pub struct ValidatorService<S> {
    pub next: S,
}

impl<S> ValidatorService<S> {
    /// A validator for incoming requests in front of `next`.
    pub fn incoming(next: S) -> (r: Self)
        ensures
            r.next == next,
    {
        ValidatorService { next }
    }

    /// A validator for outgoing requests in front of `next`.
    pub fn outgoing(next: S) -> (r: Self)
        ensures
            r.next == next,
    {
        ValidatorService { next }
    }

    /// The action owed to an incoming `prepare` at instant `now`: forward it
    /// unless it has expired, else answer with an `R00` Reject.
    pub fn incoming_action_at(&self, prepare: &Prepare, now: i64) -> (r: IncomingAction)
        ensures
            incoming_decided(*prepare, now, r),
    {
        if prepare.expires_at >= now {
            IncomingAction::Forward
        } else {
            IncomingAction::Respond(Reject::timed_out())
        }
    }

    /// The action owed to an incoming `prepare` now, by the system clock.
    pub fn incoming_action(&self, prepare: &Prepare) -> (r: IncomingAction)
        ensures
            exists|now: i64| incoming_decided(*prepare, now, r),
    {
        let now = now_millis();
        let r = self.incoming_action_at(prepare, now);
        assert(incoming_decided(*prepare, now, r));
        r
    }

    /// The action owed to an outgoing `prepare` at instant `now`: answer with
    /// an `R00` Reject once no time is left, else forward it with its
    /// remaining lifetime as the bound.
    pub fn outgoing_action_at(&self, prepare: &Prepare, now: i64) -> (r: OutgoingAction)
        ensures
            outgoing_decided(*prepare, now, r),
    {
        let time_left: i128 = prepare.expires_at as i128 - now as i128;
        if time_left <= 0 {
            OutgoingAction::Respond(Reject::timed_out())
        } else {
            OutgoingAction::Forward { timeout_ms: deadline(time_left) }
        }
    }

    /// The action owed to an outgoing `prepare` now, by the system clock.
    pub fn outgoing_action(&self, prepare: &Prepare) -> (r: OutgoingAction)
        ensures
            exists|now: i64| outgoing_decided(*prepare, now, r),
    {
        let now = now_millis();
        let r = self.outgoing_action_at(prepare, now);
        assert(outgoing_decided(*prepare, now, r));
        r
    }

}

/// An outgoing request is never given longer than its Prepare has to live:
/// where the action is to forward, the bound is positive and at most the
/// remaining lifetime, and it is that lifetime whenever it fits a `u64`.
pub proof fn lemma_deadline_within_lifetime(prepare: Prepare, now: i64, a: OutgoingAction)
    requires
        outgoing_decided(prepare, now, a),
        a is Forward,
    ensures
        0 < a->timeout_ms <= time_left(prepare, now),
        time_left(prepare, now) <= u64::MAX ==> a->timeout_ms == time_left(prepare, now),
{
}

/// When the next handler has not answered by the bound that the forward
/// action set, the caller gets an `R00` Reject, and no later than the
/// packet's own expiry.
pub proof fn lemma_late_answer_times_out(
    prepare: Prepare,
    now: i64,
    a: OutgoingAction,
    r: Result<Fulfill, Reject>,
)
    requires
        outgoing_decided(prepare, now, a),
        a is Forward,
        outgoing_resolved(prepare.execution_condition@, DownstreamEvent::TimedOut, r),
    ensures
        r matches Err(rej) && is_timed_out_reject(rej),
        now + a->timeout_ms <= prepare.expires_at,
{
}

/// Every Fulfill that an outgoing validator hands back carries a preimage
/// of the Prepare's execution condition, whatever the downstream answered.
pub proof fn lemma_returned_fulfill_matches(
    condition: Seq<u8>,
    event: DownstreamEvent,
    r: Result<Fulfill, Reject>,
)
    requires
        outgoing_resolved(condition, event, r),
        r is Ok,
    ensures
        sha256_of(r->Ok_0.fulfillment@) == condition,
{
}

/// An incoming Prepare is handed on only while it has not expired, and
/// every Prepare that has not expired is handed on.
pub proof fn lemma_forward_only_unexpired(prepare: Prepare, now: i64, a: IncomingAction)
    requires
        incoming_decided(prepare, now, a),
    ensures
        a is Forward <==> prepare.expires_at >= now,
{
}

} // verus!
