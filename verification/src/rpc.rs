//! The requests of the matching service: which methods there are, on which
//! channel each one travels, and the document that each one sends.

use vstd::prelude::*;
use crate::bytes::decimal_text;
use crate::hex::hex_text;
use crate::json::{
    array, boolean, close_object, document, documents, new_object, no_members, number,
    set_member, text, Json,
};
use crate::primitives::checksum_text;
use crate::seaport::{ConsiderationItem, OfferItem, Order, OrderComponents};

verus! {

/// The two long-lived channels of a session.
#[derive(Clone, Copy, Debug, PartialEq, Eq)]
pub enum Channel {
    /// Requests and their responses.
    Request,
    /// The market-data feed.
    Feed,
}

/// The methods of the matching service that a session calls.
#[derive(Clone, Copy, Debug, PartialEq, Eq)]
pub enum Method {
    Ping,
    AuthWallet,
    CheckAuth,
    ViewOrderbook,
    MakeOrder,
    SubscribeOrderbook,
}

impl Method {
    /// The method's name on the wire.
    pub open spec fn name(self) -> Seq<char> {
        match self {
            Method::Ping => "aori_ping"@,
            Method::AuthWallet => "aori_authWallet"@,
            Method::CheckAuth => "aori_checkAuth"@,
            Method::ViewOrderbook => "aori_viewOrderbook"@,
            Method::MakeOrder => "aori_makeOrder"@,
            Method::SubscribeOrderbook => "aori_subscribeOrderbook"@,
        }
    }

    /// The channel that requests of this method travel on: the feed channel
    /// for the orderbook subscription, the request channel for all others.
    pub open spec fn channel(self) -> Channel {
        match self {
            Method::SubscribeOrderbook => Channel::Feed,
            _ => Channel::Request,
        }
    }

    /// The method's name on the wire.
    pub fn as_str(self) -> (name: &'static str)
        ensures
            name@ == self.name(),
    {
        match self {
            Method::Ping => "aori_ping",
            Method::AuthWallet => "aori_authWallet",
            Method::CheckAuth => "aori_checkAuth",
            Method::ViewOrderbook => "aori_viewOrderbook",
            Method::MakeOrder => "aori_makeOrder",
            Method::SubscribeOrderbook => "aori_subscribeOrderbook",
        }
    }

    /// The channel that requests of this method travel on.
    pub fn on_channel(self) -> (channel: Channel)
        ensures
            channel == self.channel(),
    {
        match self {
            Method::SubscribeOrderbook => Channel::Feed,
            _ => Channel::Request,
        }
    }
}

/// The envelope around every request: its number, the protocol version, the
/// method's name, and the parameters as an array.
pub open spec fn envelope_doc(id: u64, method: Method, params: Seq<Json>) -> Json {
    Json::Object(
        no_members().insert("id"@, Json::Number(id as nat)).insert(
            "jsonrpc"@,
            Json::Text("2.0"@),
        ).insert("method"@, Json::Text(method.name())).insert("params"@, Json::Array(params)),
    )
}

/// The request that asks whether the service is there: no parameters.
pub open spec fn ping_doc(id: u64) -> Json {
    envelope_doc(id, Method::Ping, Seq::empty())
}

/// The parameter that presents a wallet: its address and the proof of
/// ownership.
pub open spec fn auth_wallet_param(address: Seq<char>, signature: Seq<char>) -> Json {
    Json::Object(
        no_members().insert("address"@, Json::Text(address)).insert(
            "signature"@,
            Json::Text(signature),
        ),
    )
}

/// The request that presents a wallet.
pub open spec fn auth_wallet_doc(id: u64, address: Seq<char>, signature: Seq<char>) -> Json {
    envelope_doc(id, Method::AuthWallet, seq![auth_wallet_param(address, signature)])
}

/// The parameter that hands in an auth token.
pub open spec fn check_auth_param(token: Seq<char>) -> Json {
    Json::Object(no_members().insert("auth"@, Json::Text(token)))
}

/// The request that hands in an auth token for checking.
pub open spec fn check_auth_doc(id: u64, token: Seq<char>) -> Json {
    envelope_doc(id, Method::CheckAuth, seq![check_auth_param(token)])
}

/// The parameter that names a chain and two tokens.
pub open spec fn view_orderbook_param(chain_id: u64, base: Seq<char>, quote: Seq<char>) -> Json {
    Json::Object(
        no_members().insert("chainId"@, Json::Number(chain_id as nat)).insert(
            "query"@,
            Json::Object(
                no_members().insert("base"@, Json::Text(base)).insert("quote"@, Json::Text(quote)),
            ),
        ),
    )
}

/// The request for the orders between two tokens on a chain.
pub open spec fn view_orderbook_doc(id: u64, chain_id: u64, base: Seq<char>, quote: Seq<char>) -> Json {
    envelope_doc(id, Method::ViewOrderbook, seq![view_orderbook_param(chain_id, base, quote)])
}

/// The request that subscribes to the orderbook feed: no parameters.
pub open spec fn subscribe_orderbook_doc(id: u64) -> Json {
    envelope_doc(id, Method::SubscribeOrderbook, Seq::empty())
}

/// An offer item, field by field: the kind as its code, the token as its
/// checksum text, the numbers in decimal.
pub open spec fn offer_item_doc(item: OfferItem) -> Json {
    Json::Object(
        no_members().insert("itemType"@, Json::Number(item.item_type.code() as nat)).insert(
            "token"@,
            Json::Text(checksum_text(item.token.bytes@)),
        ).insert(
            "identifierOrCriteria"@,
            Json::Text(decimal_text(item.identifier_or_criteria.value())),
        ).insert("startAmount"@, Json::Text(decimal_text(item.start_amount.value()))).insert(
            "endAmount"@,
            Json::Text(decimal_text(item.end_amount.value())),
        ),
    )
}

/// A consideration item, field by field, as an offer item and with the
/// recipient as its checksum text.
pub open spec fn consideration_item_doc(item: ConsiderationItem) -> Json {
    Json::Object(
        no_members().insert("itemType"@, Json::Number(item.item_type.code() as nat)).insert(
            "token"@,
            Json::Text(checksum_text(item.token.bytes@)),
        ).insert(
            "identifierOrCriteria"@,
            Json::Text(decimal_text(item.identifier_or_criteria.value())),
        ).insert("startAmount"@, Json::Text(decimal_text(item.start_amount.value()))).insert(
            "endAmount"@,
            Json::Text(decimal_text(item.end_amount.value())),
        ).insert("recipient"@, Json::Text(checksum_text(item.recipient.bytes@))),
    )
}

/// The offer items, each rendered, in their order.
pub open spec fn offer_docs(items: Seq<OfferItem>) -> Seq<Json> {
    Seq::new(items.len(), |i: int| offer_item_doc(items[i]))
}

/// The consideration items, each rendered, in their order.
pub open spec fn consideration_docs(items: Seq<ConsiderationItem>) -> Seq<Json> {
    Seq::new(items.len(), |i: int| consideration_item_doc(items[i]))
}

/// An order, field by field: addresses as checksum text, 256-bit numbers in
/// decimal, 32-byte values in hex, the order type as its code, the items in
/// their order.
pub open spec fn order_doc(order: Order) -> Json {
    Json::Object(
        no_members().insert("offerer"@, Json::Text(checksum_text(order.offerer.bytes@))).insert(
            "zone"@,
            Json::Text(checksum_text(order.zone.bytes@)),
        ).insert("offer"@, Json::Array(offer_docs(order.offer))).insert(
            "consideration"@,
            Json::Array(consideration_docs(order.consideration)),
        ).insert("orderType"@, Json::Number(order.order_type.code() as nat)).insert(
            "startTime"@,
            Json::Text(decimal_text(order.start_time.value())),
        ).insert("endTime"@, Json::Text(decimal_text(order.end_time.value()))).insert(
            "zoneHash"@,
            Json::Text(hex_text(order.zone_hash.bytes@)),
        ).insert("salt"@, Json::Text(decimal_text(order.salt.value()))).insert(
            "conduitKey"@,
            Json::Text(hex_text(order.conduit_key.bytes@)),
        ).insert("counter"@, Json::Text(decimal_text(order.counter.value()))),
    )
}

/// The parameter that places an order: the order with its signature, marked
/// public, for the session's chain.
pub open spec fn make_order_param(chain_id: u64, signature: Seq<char>, order: Order) -> Json {
    Json::Object(
        no_members().insert(
            "order"@,
            Json::Object(
                no_members().insert("signature"@, Json::Text(signature)).insert(
                    "parameters"@,
                    order_doc(order),
                ),
            ),
        ).insert("isPublic"@, Json::Bool(true)).insert("chainId"@, Json::Number(chain_id as nat)),
    )
}

/// The request that places an order.
pub open spec fn make_order_doc(id: u64, chain_id: u64, signature: Seq<char>, order: Order) -> Json {
    envelope_doc(id, Method::MakeOrder, seq![make_order_param(chain_id, signature, order)])
}

/// Wraps parameters into the envelope of a request.
pub fn envelope(id: u64, method: Method, params: Vec<serde_json::Value>) -> (value:
    serde_json::Value)
    ensures
        document(value) == envelope_doc(id, method, documents(params@)),
{
    let mut members = new_object();
    set_member(&mut members, "id", number(id));
    set_member(&mut members, "jsonrpc", text("2.0"));
    set_member(&mut members, "method", text(method.as_str()));
    set_member(&mut members, "params", array(params));
    close_object(members)
}

/// Builds the request that asks whether the service is there.
pub fn ping_request(id: u64) -> (value: serde_json::Value)
    ensures
        document(value) == ping_doc(id),
{
    let params: Vec<serde_json::Value> = Vec::new();
    assert(documents(params@) =~= Seq::empty());
    envelope(id, Method::Ping, params)
}

/// Builds the request that subscribes to the orderbook feed.
pub fn subscribe_orderbook_request(id: u64) -> (value: serde_json::Value)
    ensures
        document(value) == subscribe_orderbook_doc(id),
{
    let params: Vec<serde_json::Value> = Vec::new();
    assert(documents(params@) =~= Seq::empty());
    envelope(id, Method::SubscribeOrderbook, params)
}

/// One parameter as the array of parameters.
fn single(param: serde_json::Value) -> (params: Vec<serde_json::Value>)
    ensures
        documents(params@) == seq![document(param)],
{
    let mut params: Vec<serde_json::Value> = Vec::new();
    params.push(param);
    assert(documents(params@) =~= seq![document(param)]);
    params
}

/// Builds the request that presents a wallet.
pub fn auth_wallet_request(id: u64, address: &str, signature: &str) -> (value: serde_json::Value)
    ensures
        document(value) == auth_wallet_doc(id, address@, signature@),
{
    let mut proof_of_ownership = new_object();
    set_member(&mut proof_of_ownership, "address", text(address));
    set_member(&mut proof_of_ownership, "signature", text(signature));
    envelope(id, Method::AuthWallet, single(close_object(proof_of_ownership)))
}

/// Builds the request that hands in an auth token.
pub fn check_auth_request(id: u64, token: &str) -> (value: serde_json::Value)
    ensures
        document(value) == check_auth_doc(id, token@),
{
    let mut auth = new_object();
    set_member(&mut auth, "auth", text(token));
    envelope(id, Method::CheckAuth, single(close_object(auth)))
}

/// Builds the request for the orders between two tokens.
pub fn view_orderbook_request(id: u64, chain_id: u64, base: &str, quote: &str) -> (value:
    serde_json::Value)
    ensures
        document(value) == view_orderbook_doc(id, chain_id, base@, quote@),
{
    let mut query = new_object();
    set_member(&mut query, "base", text(base));
    set_member(&mut query, "quote", text(quote));
    let mut view = new_object();
    set_member(&mut view, "chainId", number(chain_id));
    set_member(&mut view, "query", close_object(query));
    envelope(id, Method::ViewOrderbook, single(close_object(view)))
}

/// Builds the request that places a signed order.
pub fn make_order_request(id: u64, chain_id: u64, signature: &str, order: &OrderComponents) -> (value:
    serde_json::Value)
    ensures
        document(value) == make_order_doc(id, chain_id, signature@, order@),
{
    let mut signed = new_object();
    set_member(&mut signed, "signature", text(signature));
    set_member(&mut signed, "parameters", order.to_json());
    let mut placing = new_object();
    set_member(&mut placing, "order", close_object(signed));
    set_member(&mut placing, "isPublic", boolean(true));
    set_member(&mut placing, "chainId", number(chain_id));
    envelope(id, Method::MakeOrder, single(close_object(placing)))
}

impl OfferItem {
    /// Renders the item field by field.
    pub fn to_json(&self) -> (value: serde_json::Value)
        ensures
            document(value) == offer_item_doc(*self),
    {
        let mut fields = new_object();
        set_member(&mut fields, "itemType", number(self.item_type.as_u8() as u64));
        set_member(&mut fields, "token", text(self.token.to_checksum().as_str()));
        set_member(
            &mut fields,
            "identifierOrCriteria",
            text(self.identifier_or_criteria.to_decimal().as_str()),
        );
        set_member(&mut fields, "startAmount", text(self.start_amount.to_decimal().as_str()));
        set_member(&mut fields, "endAmount", text(self.end_amount.to_decimal().as_str()));
        close_object(fields)
    }
}

impl ConsiderationItem {
    /// Renders the item field by field.
    pub fn to_json(&self) -> (value: serde_json::Value)
        ensures
            document(value) == consideration_item_doc(*self),
    {
        let mut fields = new_object();
        set_member(&mut fields, "itemType", number(self.item_type.as_u8() as u64));
        set_member(&mut fields, "token", text(self.token.to_checksum().as_str()));
        set_member(
            &mut fields,
            "identifierOrCriteria",
            text(self.identifier_or_criteria.to_decimal().as_str()),
        );
        set_member(&mut fields, "startAmount", text(self.start_amount.to_decimal().as_str()));
        set_member(&mut fields, "endAmount", text(self.end_amount.to_decimal().as_str()));
        set_member(&mut fields, "recipient", text(self.recipient.to_checksum().as_str()));
        close_object(fields)
    }
}

impl OrderComponents {
    /// Renders the order field by field, as the matching service reads it.
    pub fn to_json(&self) -> (value: serde_json::Value)
        ensures
            document(value) == order_doc(self@),
    {
        let mut offer: Vec<serde_json::Value> = Vec::new();
        let mut i: usize = 0;
        while i < self.offer.len()
            invariant
                i <= self.offer.len(),
                offer@.len() == i,
                documents(offer@) == offer_docs(self.offer@.take(i as int)),
            decreases self.offer.len() - i,
        {
            let ghost before = offer@;
            offer.push(self.offer[i].to_json());
            proof {
                let done = self.offer@.take(i as int);
                let next = self.offer@.take(i as int + 1);
                assert forall|k: int| 0 <= k < next.len() implies documents(offer@)[k]
                    == offer_docs(next)[k] by {
                    if k < i {
                        assert(documents(before)[k] == offer_docs(done)[k]);
                        assert(offer@[k] == before[k]);
                        assert(next[k] == done[k]);
                    }
                }
                assert(documents(offer@) =~= offer_docs(next));
            }
            i = i + 1;
        }
        assert(self.offer@.take(i as int) =~= self.offer@);
        let mut consideration: Vec<serde_json::Value> = Vec::new();
        let mut j: usize = 0;
        while j < self.consideration.len()
            invariant
                j <= self.consideration.len(),
                consideration@.len() == j,
                documents(consideration@) == consideration_docs(
                    self.consideration@.take(j as int),
                ),
            decreases self.consideration.len() - j,
        {
            let ghost before = consideration@;
            consideration.push(self.consideration[j].to_json());
            proof {
                let done = self.consideration@.take(j as int);
                let next = self.consideration@.take(j as int + 1);
                assert forall|k: int| 0 <= k < next.len() implies documents(consideration@)[k]
                    == consideration_docs(next)[k] by {
                    if k < j {
                        assert(documents(before)[k] == consideration_docs(done)[k]);
                        assert(consideration@[k] == before[k]);
                        assert(next[k] == done[k]);
                    }
                }
                assert(documents(consideration@) =~= consideration_docs(next));
            }
            j = j + 1;
        }
        assert(self.consideration@.take(j as int) =~= self.consideration@);
        let mut fields = new_object();
        set_member(&mut fields, "offerer", text(self.offerer.to_checksum().as_str()));
        set_member(&mut fields, "zone", text(self.zone.to_checksum().as_str()));
        set_member(&mut fields, "offer", array(offer));
        set_member(&mut fields, "consideration", array(consideration));
        set_member(&mut fields, "orderType", number(self.order_type.as_u8() as u64));
        set_member(&mut fields, "startTime", text(self.start_time.to_decimal().as_str()));
        set_member(&mut fields, "endTime", text(self.end_time.to_decimal().as_str()));
        set_member(&mut fields, "zoneHash", text(self.zone_hash.to_hex().as_str()));
        set_member(&mut fields, "salt", text(self.salt.to_decimal().as_str()));
        set_member(&mut fields, "conduitKey", text(self.conduit_key.to_hex().as_str()));
        set_member(&mut fields, "counter", text(self.counter.to_decimal().as_str()));
        close_object(fields)
    }
}

} // verus!
