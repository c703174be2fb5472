//! The session with the matching service.
//!
//! A session numbers its requests, knows the wallet it speaks for, and holds
//! the key that signs orders. Each call takes the next number and hands back
//! what is to be sent and on which channel; the session itself neither sends
//! nor receives.

use vstd::prelude::*;
use vstd::utf8::encode_utf8;
use crate::eip712::{digest, signing_digest};
use crate::hex::hex_text;
use crate::json::{json_text, to_text, Json};
use crate::rpc::{
    auth_wallet_doc, auth_wallet_request, check_auth_doc, check_auth_request, make_order_doc,
    make_order_request, ping_doc, ping_request, subscribe_orderbook_doc,
    subscribe_orderbook_request, view_orderbook_doc, view_orderbook_request, Channel, Method,
};
use crate::seaport::{resolve_domain, seaport_domain, DomainDescriptor, Order, OrderComponents};
use crate::signing::{
    parsed_key, personal_message_hash, signature_of, PrivateKey, SigningError,
};

verus! {

/// A setting that a session cannot be made without.
#[derive(Clone, Copy, Debug, PartialEq, Eq)]
pub enum Setting {
    PrivateKey,
    WalletAddress,
    NodeUrl,
}

/// The step at which signing failed.
#[derive(Clone, Copy, Debug, PartialEq, Eq)]
pub enum Step {
    /// Signing the wallet address, when the session is made.
    OwnershipProof,
    /// Signing the digest of an order.
    MakeOrder,
}

/// Why a session could not be made, or a request not built.
#[derive(Clone, Debug, PartialEq, Eq)]
pub enum ProviderError {
    /// A setting is not there.
    MissingSetting(Setting),
    /// The private key is not one. `cause` is the wallet's own message.
    MalformedPrivateKey { cause: String },
    /// The key made no signature. `cause` is the wallet's own message.
    SigningFailed { step: Step, cause: String },
}

/// The settings of a session, all present.
#[derive(Clone, Debug, PartialEq, Eq)]
pub struct EnvConfig {
    pub private_key: String,
    pub wallet_address: String,
    pub node_url: String,
}

/// Something to send: the request's number and method, the channel it
/// belongs on, and its text.
#[derive(Clone, Debug, PartialEq, Eq)]
pub struct Outbound {
    pub id: u64,
    pub method: Method,
    pub channel: Channel,
    pub text: String,
}

/// Something to send, as a mathematical value.
pub struct Emission {
    pub id: u64,
    pub method: Method,
    pub channel: Channel,
    pub text: Seq<char>,
}

impl View for Outbound {
    type V = Emission;

    open spec fn view(&self) -> Emission {
        Emission { id: self.id, method: self.method, channel: self.channel, text: self.text@ }
    }
}

/// A call on a session, with its arguments.
pub enum Request {
    Ping,
    AuthWallet,
    CheckAuth { token: Seq<char> },
    ViewOrderbook { base: Seq<char>, quote: Seq<char> },
    MakeOrder { order: Order },
    SubscribeOrderbook,
}

impl Request {
    /// The method that the call is a request of.
    pub open spec fn method(self) -> Method {
        match self {
            Request::Ping => Method::Ping,
            Request::AuthWallet => Method::AuthWallet,
            Request::CheckAuth { .. } => Method::CheckAuth,
            Request::ViewOrderbook { .. } => Method::ViewOrderbook,
            Request::MakeOrder { .. } => Method::MakeOrder,
            Request::SubscribeOrderbook => Method::SubscribeOrderbook,
        }
    }
}

/// The state of a session.
pub struct Session {
    /// The chain that the session's node is on.
    pub chain_id: u64,
    /// The number of the last request; 0 before the first.
    pub last_id: u64,
    /// The wallet's address, as text.
    pub wallet_addr: Seq<char>,
    /// The proof of wallet ownership, as hex text.
    pub wallet_sig: Seq<char>,
    /// The auth token that the caller last handed in, if any.
    pub auth_token: Option<Seq<char>>,
    /// The signing key.
    pub key: [u8; 32],
}

impl Session {
    /// The proof of ownership is the plain-message signature, by the
    /// session's key, over the wallet address as text.
    pub open spec fn well_formed(self) -> bool {
        match signature_of(self.key, personal_message_hash(encode_utf8(self.wallet_addr))) {
            Some(signature) => self.wallet_sig == hex_text(signature@),
            None => false,
        }
    }

    /// The session that a key text, a wallet address and a chain id make, if
    /// they make one: the text must be a key, and the key must sign.
    pub open spec fn connected(key_text: Seq<char>, address: Seq<char>, chain_id: u64) -> Option<
        Session,
    > {
        match parsed_key(key_text) {
            None => None,
            Some(key) => match signature_of(key, personal_message_hash(encode_utf8(address))) {
                None => None,
                Some(signature) => Some(
                    Session {
                        chain_id,
                        last_id: 0,
                        wallet_addr: address,
                        wallet_sig: hex_text(signature@),
                        auth_token: None,
                        key,
                    },
                ),
            },
        }
    }

    /// The number that the next request gets.
    pub open spec fn next_id(self) -> u64 {
        (self.last_id + 1) as u64
    }

    /// The signature over the digest of `order` under the session's domain,
    /// if the key makes one.
    pub open spec fn order_signature(self, order: Order) -> Option<[u8; 65]> {
        signature_of(self.key, signing_digest(order, seaport_domain(self.chain_id)))
    }

    /// The document that a call sends, or `None` where the call fails. Only
    /// placing an order can fail: when the key makes no signature.
    pub open spec fn document_of(self, request: Request) -> Option<Json> {
        let id = self.next_id();
        match request {
            Request::Ping => Some(ping_doc(id)),
            Request::AuthWallet => Some(auth_wallet_doc(id, self.wallet_addr, self.wallet_sig)),
            Request::CheckAuth { token } => Some(check_auth_doc(id, token)),
            Request::ViewOrderbook { base, quote } => Some(
                view_orderbook_doc(id, self.chain_id, base, quote),
            ),
            Request::MakeOrder { order } => match self.order_signature(order) {
                Some(signature) => Some(
                    make_order_doc(id, self.chain_id, hex_text(signature@), order),
                ),
                None => None,
            },
            Request::SubscribeOrderbook => Some(subscribe_orderbook_doc(id)),
        }
    }

    /// What a call hands back to be sent, or `None` where the call fails.
    pub open spec fn emission(self, request: Request) -> Option<Emission> {
        match self.document_of(request) {
            Some(doc) => Some(
                Emission {
                    id: self.next_id(),
                    method: request.method(),
                    channel: request.method().channel(),
                    text: json_text(doc),
                },
            ),
            None => None,
        }
    }

    /// The state after a call: the number is taken, whether or not the call
    /// succeeded, and a handed-in auth token is kept.
    pub open spec fn after(self, request: Request) -> Session {
        Session {
            chain_id: self.chain_id,
            last_id: self.next_id(),
            wallet_addr: self.wallet_addr,
            wallet_sig: self.wallet_sig,
            auth_token: match request {
                Request::CheckAuth { token } => Some(token),
                _ => self.auth_token,
            },
            key: self.key,
        }
    }
}

impl EnvConfig {
    /// Checks that every setting is there. The first one missing, in the
    /// order private key, wallet address, node URL, is reported.
    pub fn from_values(
        private_key: Option<String>,
        wallet_address: Option<String>,
        node_url: Option<String>,
    ) -> (res: Result<EnvConfig, ProviderError>)
        ensures
            match res {
                Ok(config) => private_key == Some(config.private_key) && wallet_address == Some(
                    config.wallet_address,
                ) && node_url == Some(config.node_url),
                Err(error) => if private_key is None {
                    error == ProviderError::MissingSetting(Setting::PrivateKey)
                } else if wallet_address is None {
                    error == ProviderError::MissingSetting(Setting::WalletAddress)
                } else {
                    node_url is None && error == ProviderError::MissingSetting(Setting::NodeUrl)
                },
            },
    {
        let private_key = match private_key {
            Some(value) => value,
            None => { return Err(ProviderError::MissingSetting(Setting::PrivateKey)); },
        };
        let wallet_address = match wallet_address {
            Some(value) => value,
            None => { return Err(ProviderError::MissingSetting(Setting::WalletAddress)); },
        };
        let node_url = match node_url {
            Some(value) => value,
            None => { return Err(ProviderError::MissingSetting(Setting::NodeUrl)); },
        };
        Ok(EnvConfig { private_key, wallet_address, node_url })
    }
}

/// A session with the matching service.
///
/// A session exists once its key has signed the wallet address; from then on
/// it is connected. It counts as authenticated from the moment an auth token
/// is handed to `check_auth`. Placing orders before that is not refused here:
/// the order of these steps is the caller's to keep.
///
/// Every method that numbers a request takes the session by `&mut`, so one
/// session has one writer at a time and numbers leave in the order of the
/// calls.
pub struct AoriProvider {
    key: PrivateKey,
    domain: DomainDescriptor,
    chain_id: u64,
    last_id: u64,
    wallet_addr: String,
    wallet_sig: String,
    auth_token: Option<String>,
}

impl View for AoriProvider {
    type V = Session;

    closed spec fn view(&self) -> Session {
        Session {
            chain_id: self.chain_id,
            last_id: self.last_id,
            wallet_addr: self.wallet_addr@,
            wallet_sig: self.wallet_sig@,
            auth_token: match self.auth_token {
                Some(token) => Some(token@),
                None => None,
            },
            key: self.key.secret(),
        }
    }
}

impl AoriProvider {
    #[verifier::type_invariant]
    spec fn holds_together(&self) -> bool {
        self.domain@ == seaport_domain(self.chain_id) && self@.well_formed()
    }

    /// Makes a session from the settings of the environment and the chain id
    /// that the node reported: reads the key and signs the wallet address
    /// with it, as proof of ownership. No request has been numbered yet.
    ///
    /// Fails where the key text is no key, and where the key does not sign.
    pub fn new_from_env(config: EnvConfig, chain_id: u64) -> (res: Result<
        AoriProvider,
        ProviderError,
    >)
        ensures
            match res {
                Ok(provider) => Session::connected(
                    config.private_key@,
                    config.wallet_address@,
                    chain_id,
                ) == Some(provider@),
                Err(error) => {
                    &&& Session::connected(config.private_key@, config.wallet_address@, chain_id)
                        is None
                    &&& match parsed_key(config.private_key@) {
                        None => error is MalformedPrivateKey,
                        Some(_) => error matches ProviderError::SigningFailed { step, .. }
                            && step == Step::OwnershipProof,
                    }
                },
            },
    {
        let key = match PrivateKey::parse(config.private_key.as_str()) {
            Ok(key) => key,
            Err(error) => {
                return Err(ProviderError::MalformedPrivateKey { cause: cause_of(error) });
            },
        };
        let signature = match key.sign_plaintext(config.wallet_address.as_str().as_bytes()) {
            Ok(signature) => signature,
            Err(error) => {
                return Err(
                    ProviderError::SigningFailed {
                        step: Step::OwnershipProof,
                        cause: cause_of(error),
                    },
                );
            },
        };
        Ok(
            AoriProvider {
                key,
                domain: resolve_domain(chain_id),
                chain_id,
                last_id: 0,
                wallet_addr: config.wallet_address,
                wallet_sig: signature.to_hex(),
                auth_token: None,
            },
        )
    }

    /// The chain that the session is on.
    pub fn chain_id(&self) -> (chain_id: u64)
        ensures
            chain_id == self@.chain_id,
    {
        self.chain_id
    }

    /// The number of the last request; 0 before the first.
    pub fn last_id(&self) -> (id: u64)
        ensures
            id == self@.last_id,
    {
        self.last_id
    }

    /// The wallet's address.
    pub fn wallet_addr(&self) -> (address: &str)
        ensures
            address@ == self@.wallet_addr,
    {
        self.wallet_addr.as_str()
    }

    /// The proof of wallet ownership: `0x` and the 130 hex digits of the
    /// plain-message signature over the wallet address.
    pub fn wallet_sig(&self) -> (signature: &str)
        ensures
            signature@ == self@.wallet_sig,
            self@.well_formed(),
    {
        proof {
            use_type_invariant(self);
        }
        self.wallet_sig.as_str()
    }

    /// The auth token that was last handed to `check_auth`, if any.
    pub fn auth_token(&self) -> (token: Option<&str>)
        ensures
            match token {
                Some(text) => self@.auth_token == Some(text@),
                None => self@.auth_token is None,
            },
    {
        match &self.auth_token {
            Some(token) => Some(token.as_str()),
            None => None,
        }
    }

    /// The signing domain of the session: that of the exchange on the
    /// session's chain.
    pub fn domain(&self) -> (domain: &DomainDescriptor)
        ensures
            domain@ == seaport_domain(self@.chain_id),
    {
        proof {
            use_type_invariant(self);
        }
        &self.domain
    }

    /// Asks whether the service is there.
    pub fn ping(&mut self) -> (out: Outbound)
        requires
            old(self)@.last_id < u64::MAX,
        ensures
            final(self)@ == old(self)@.after(Request::Ping),
            Some(out@) == old(self)@.emission(Request::Ping),
            out.id == old(self)@.last_id + 1,
            out.channel == Channel::Request,
            out.text@ == json_text(ping_doc(out.id)),
    {
        proof {
            use_type_invariant(&*self);
        }
        self.last_id = self.last_id + 1;
        let request = ping_request(self.last_id);
        Outbound {
            id: self.last_id,
            method: Method::Ping,
            channel: Method::Ping.on_channel(),
            text: to_text(&request),
        }
    }

    /// Presents the wallet address and the proof of ownership, to obtain an
    /// auth token. The token comes with the response, which the caller reads.
    pub fn auth_wallet(&mut self) -> (out: Outbound)
        requires
            old(self)@.last_id < u64::MAX,
        ensures
            final(self)@ == old(self)@.after(Request::AuthWallet),
            Some(out@) == old(self)@.emission(Request::AuthWallet),
            out.id == old(self)@.last_id + 1,
            out.channel == Channel::Request,
            out.text@ == json_text(
                auth_wallet_doc(out.id, old(self)@.wallet_addr, old(self)@.wallet_sig),
            ),
            old(self)@.well_formed(),
    {
        proof {
            use_type_invariant(&*self);
        }
        self.last_id = self.last_id + 1;
        let request = auth_wallet_request(
            self.last_id,
            self.wallet_addr.as_str(),
            self.wallet_sig.as_str(),
        );
        Outbound {
            id: self.last_id,
            method: Method::AuthWallet,
            channel: Method::AuthWallet.on_channel(),
            text: to_text(&request),
        }
    }

    /// Hands in an auth token for checking, and keeps it.
    pub fn check_auth(&mut self, jwt: &str) -> (out: Outbound)
        requires
            old(self)@.last_id < u64::MAX,
        ensures
            final(self)@ == old(self)@.after(Request::CheckAuth { token: jwt@ }),
            Some(out@) == old(self)@.emission(Request::CheckAuth { token: jwt@ }),
            out.id == old(self)@.last_id + 1,
            out.channel == Channel::Request,
            out.text@ == json_text(check_auth_doc(out.id, jwt@)),
    {
        proof {
            use_type_invariant(&*self);
        }
        self.last_id = self.last_id + 1;
        self.auth_token = Some(jwt.to_owned());
        let request = check_auth_request(self.last_id, jwt);
        Outbound {
            id: self.last_id,
            method: Method::CheckAuth,
            channel: Method::CheckAuth.on_channel(),
            text: to_text(&request),
        }
    }

    /// Asks for the orders between two tokens on the session's chain.
    pub fn view_orderbook(&mut self, base: &str, quote: &str) -> (out: Outbound)
        requires
            old(self)@.last_id < u64::MAX,
        ensures
            final(self)@ == old(self)@.after(Request::ViewOrderbook { base: base@, quote: quote@ }),
            Some(out@) == old(self)@.emission(
                Request::ViewOrderbook { base: base@, quote: quote@ },
            ),
            out.id == old(self)@.last_id + 1,
            out.channel == Channel::Request,
            out.text@ == json_text(
                view_orderbook_doc(out.id, old(self)@.chain_id, base@, quote@),
            ),
    {
        proof {
            use_type_invariant(&*self);
        }
        self.last_id = self.last_id + 1;
        let request = view_orderbook_request(self.last_id, self.chain_id, base, quote);
        Outbound {
            id: self.last_id,
            method: Method::ViewOrderbook,
            channel: Method::ViewOrderbook.on_channel(),
            text: to_text(&request),
        }
    }

    /// Places an order: signs its digest under the session's domain, in
    /// digest mode, and sends the order with the signature.
    ///
    /// The request's number is taken before signing; where the key makes no
    /// signature the call fails and the number stays taken.
    pub fn make_order(&mut self, order_params: OrderComponents) -> (res: Result<
        Outbound,
        ProviderError,
    >)
        requires
            old(self)@.last_id < u64::MAX,
        ensures
            final(self)@ == old(self)@.after(Request::MakeOrder { order: order_params@ }),
            match res {
                Ok(out) => {
                    &&& Some(out@) == old(self)@.emission(
                        Request::MakeOrder { order: order_params@ },
                    )
                    &&& out.id == old(self)@.last_id + 1
                    &&& out.channel == Channel::Request
                    &&& old(self)@.order_signature(order_params@) matches Some(signature)
                    &&& out.text@ == json_text(
                        make_order_doc(
                            out.id,
                            old(self)@.chain_id,
                            hex_text(signature@),
                            order_params@,
                        ),
                    )
                },
                Err(error) => {
                    &&& old(self)@.order_signature(order_params@) is None
                    &&& error matches ProviderError::SigningFailed { step, .. }
                    &&& step == Step::MakeOrder
                },
            },
    {
        proof {
            use_type_invariant(&*self);
        }
        self.last_id = self.last_id + 1;
        let hash = digest(&order_params, &self.domain);
        let signature = match self.key.sign_digest(&hash) {
            Ok(signature) => signature,
            Err(error) => {
                return Err(
                    ProviderError::SigningFailed { step: Step::MakeOrder, cause: cause_of(error) },
                );
            },
        };
        let request = make_order_request(
            self.last_id,
            self.chain_id,
            signature.to_hex().as_str(),
            &order_params,
        );
        Ok(
            Outbound {
                id: self.last_id,
                method: Method::MakeOrder,
                channel: Method::MakeOrder.on_channel(),
                text: to_text(&request),
            },
        )
    }

    /// Subscribes to the orderbook feed. The request goes out on the feed
    /// channel.
    pub fn subscribe_orderbook(&mut self) -> (out: Outbound)
        requires
            old(self)@.last_id < u64::MAX,
        ensures
            final(self)@ == old(self)@.after(Request::SubscribeOrderbook),
            Some(out@) == old(self)@.emission(Request::SubscribeOrderbook),
            out.id == old(self)@.last_id + 1,
            out.channel == Channel::Feed,
            out.text@ == json_text(subscribe_orderbook_doc(out.id)),
    {
        proof {
            use_type_invariant(&*self);
        }
        self.last_id = self.last_id + 1;
        let request = subscribe_orderbook_request(self.last_id);
        Outbound {
            id: self.last_id,
            method: Method::SubscribeOrderbook,
            channel: Method::SubscribeOrderbook.on_channel(),
            text: to_text(&request),
        }
    }
}

/// The wallet's own message in a signing error.
fn cause_of(error: SigningError) -> (cause: String)
    ensures
        cause == error.cause(),
{
    match error {
        SigningError::MalformedKey { cause } => cause,
        SigningError::SigningFailed { cause } => cause,
    }
}

} // verus!
