//! How a session numbers what it sends, where it sends it, and in what shape.
//!
//! A run of calls on a session is followed here as a run of `Request`s from a
//! starting state: `Session::after` gives the state after a call and
//! `Session::emission` what the call hands back, the same two functions by
//! which every method of the session states its effect.

use vstd::prelude::*;
use crate::hex::hex_text;
use crate::json::Json;
use crate::provider::{Emission, Request, Session};
use crate::rpc::{
    auth_wallet_param, check_auth_param, envelope_doc, make_order_param, view_orderbook_param,
    Channel,
};

verus! {

/// The state of a session after the first `n` of `requests`.
pub open spec fn state_after(start: Session, requests: Seq<Request>, n: nat) -> Session
    decreases n,
{
    if n == 0 {
        start
    } else {
        state_after(start, requests, (n - 1) as nat).after(requests[n - 1])
    }
}

/// What the call at place `i` of `requests` hands back, or `None` where it
/// fails.
pub open spec fn emitted(start: Session, requests: Seq<Request>, i: int) -> Option<Emission> {
    state_after(start, requests, i as nat).emission(requests[i])
}

/// Calls change the counter and the kept auth token, nothing else; each call
/// moves the counter by one.
pub proof fn lemma_state_after(start: Session, requests: Seq<Request>, n: nat)
    requires
        n <= requests.len(),
        start.last_id + n <= u64::MAX,
    ensures
        state_after(start, requests, n).last_id == start.last_id + n,
        state_after(start, requests, n).chain_id == start.chain_id,
        state_after(start, requests, n).key == start.key,
        state_after(start, requests, n).wallet_addr == start.wallet_addr,
        state_after(start, requests, n).wallet_sig == start.wallet_sig,
    decreases n,
{
    if n > 0 {
        lemma_state_after(start, requests, (n - 1) as nat);
    }
}

/// The call at place `i` of a run sends the number `i + 1` past the starting
/// count; where it sends nothing, it is an order that the key did not sign.
pub proof fn ids_follow_the_calls(start: Session, requests: Seq<Request>, i: int)
    requires
        start.last_id + requests.len() <= u64::MAX,
        0 <= i < requests.len(),
    ensures
        match emitted(start, requests, i) {
            Some(emission) => emission.id == start.last_id + i + 1,
            None => requests[i] matches Request::MakeOrder { order } && state_after(
                start,
                requests,
                i as nat,
            ).order_signature(order) is None,
        },
{
    lemma_state_after(start, requests, i as nat);
}

/// On a new session whose calls all succeed, the numbers sent are 1, 2, and so
/// on up to the number of calls, in the order of the calls.
pub proof fn ids_run_from_one(start: Session, requests: Seq<Request>)
    requires
        start.last_id == 0,
        requests.len() <= u64::MAX,
        forall|i: int| 0 <= i < requests.len() ==> emitted(start, requests, i) is Some,
    ensures
        forall|i: int|
            0 <= i < requests.len() ==> (#[trigger] emitted(start, requests, i))->0.id == i + 1,
{
    assert forall|i: int| 0 <= i < requests.len() implies (#[trigger] emitted(
        start,
        requests,
        i,
    ))->0.id == i + 1 by {
        ids_follow_the_calls(start, requests, i);
    }
}

/// No number is sent twice, and a later call sends a greater number, whether
/// or not the calls between them succeed.
pub proof fn ids_strictly_increase(start: Session, requests: Seq<Request>, i: int, j: int)
    requires
        start.last_id + requests.len() <= u64::MAX,
        0 <= i < j < requests.len(),
        emitted(start, requests, i) is Some,
        emitted(start, requests, j) is Some,
    ensures
        emitted(start, requests, i)->0.id < emitted(start, requests, j)->0.id,
{
    ids_follow_the_calls(start, requests, i);
    ids_follow_the_calls(start, requests, j);
}

/// The orderbook subscription goes out on the feed channel, every other
/// request on the request channel, whatever the state of the session.
pub proof fn channel_follows_the_method(session: Session, request: Request)
    ensures
        match session.emission(request) {
            Some(emission) => if request is SubscribeOrderbook {
                emission.channel == Channel::Feed
            } else {
                emission.channel == Channel::Request
            },
            None => request is MakeOrder,
        },
{
}

/// The parameters that a call sends, or `None` where the call fails.
pub open spec fn parameters_of(session: Session, request: Request) -> Option<Seq<Json>> {
    match request {
        Request::Ping => Some(Seq::empty()),
        Request::AuthWallet => Some(
            seq![auth_wallet_param(session.wallet_addr, session.wallet_sig)],
        ),
        Request::CheckAuth { token } => Some(seq![check_auth_param(token)]),
        Request::ViewOrderbook { base, quote } => Some(
            seq![view_orderbook_param(session.chain_id, base, quote)],
        ),
        Request::MakeOrder { order } => match session.order_signature(order) {
            Some(signature) => Some(
                seq![make_order_param(session.chain_id, hex_text(signature@), order)],
            ),
            None => None,
        },
        Request::SubscribeOrderbook => Some(Seq::empty()),
    }
}

/// Every request has one shape: an envelope with the request's own number,
/// the name of its method, and at most one parameter, which is an object.
pub proof fn requests_share_one_shape(session: Session, request: Request)
    ensures
        match session.document_of(request) {
            Some(doc) => {
                &&& parameters_of(session, request) matches Some(params)
                &&& doc == envelope_doc(session.next_id(), request.method(), params)
                &&& params.len() <= 1
                &&& params.len() == 1 ==> params[0] is Object
            },
            None => parameters_of(session, request) is None && request is MakeOrder,
        },
{
}

/// The proof of ownership that a session presents is never empty: it is `0x`
/// and the 130 hex digits of a signature.
pub proof fn ownership_proof_is_hex(session: Session)
    requires
        session.well_formed(),
    ensures
        session.wallet_sig.len() == 132,
        session.wallet_sig[0] == '0',
        session.wallet_sig[1] == 'x',
{
}

} // verus!
