use aori_requests::eip712::digest;
use aori_requests::primitives::{Address, B256, U256};
use aori_requests::provider::{
    AoriProvider, EnvConfig, Outbound, ProviderError, Setting,
};
use aori_requests::rpc::{Channel, Method};
use aori_requests::seaport::{
    resolve_domain, ConsiderationItem, ItemType, OfferItem, OrderComponents, OrderType,
};
use aori_requests::signing::{PrivateKey, Signature, SigningError};
use ethers_core::types::H256;
use ethers_signers::{LocalWallet, Signer};
use serde_json::Value;

fn key_text() -> String {
    "01".repeat(32)
}

fn signer_address() -> ethers_core::types::Address {
    LocalWallet::from_bytes(&[1u8; 32]).unwrap().address()
}

fn wallet_address_text() -> String {
    format!("{:?}", signer_address())
}

fn wallet_address() -> Address {
    Address { bytes: signer_address().0 }
}

fn session(chain_id: u64) -> AoriProvider {
    let config = EnvConfig::from_values(
        Some(key_text()),
        Some(wallet_address_text()),
        Some(String::from("ws://localhost:8546")),
    )
    .unwrap();
    AoriProvider::new_from_env(config, chain_id).expect("Failed to create Aori Provider")
}

fn parsed(out: &Outbound) -> Value {
    serde_json::from_str(&out.text).unwrap()
}

fn recover(signature: &Signature, hash: [u8; 32]) -> ethers_core::types::Address {
    let signature = ethers_core::types::Signature::try_from(&signature.bytes[..]).unwrap();
    signature.recover(H256::from(hash)).unwrap()
}

fn signature_from_hex(text: &str) -> Signature {
    let raw = text.strip_prefix("0x").unwrap();
    assert_eq!(raw.len(), 130);
    let mut bytes = [0u8; 65];
    for i in 0..65 {
        bytes[i] = u8::from_str_radix(&raw[2 * i..2 * i + 2], 16).unwrap();
    }
    Signature { bytes }
}

fn token_a() -> Address {
    Address {
        bytes: [
            0x27, 0x15, 0xcc, 0xea, 0x42, 0x8f, 0x8c, 0x76, 0x94, 0xf7, 0xe7, 0x8b, 0x2c, 0x89,
            0xcb, 0x45, 0x4c, 0x5f, 0x72, 0x94,
        ],
    }
}

fn token_b() -> Address {
    Address {
        bytes: [
            0xd3, 0x66, 0x4b, 0x5e, 0x72, 0xb4, 0x6e, 0xab, 0xa7, 0x22, 0xab, 0x6f, 0x43, 0xc2,
            0x2d, 0xbf, 0x40, 0x18, 0x19, 0x54,
        ],
    }
}

fn zone() -> Address {
    Address {
        bytes: [
            0xea, 0x2b, 0x4e, 0x7f, 0x02, 0xb8, 0x59, 0x30, 0x50, 0x93, 0xf9, 0xf4, 0x77, 0x8a,
            0x19, 0xd6, 0x6c, 0xa1, 0x76, 0xd5,
        ],
    }
}

fn sample_order(offer_amount: u64, consideration_amount: u64) -> OrderComponents {
    let offer_item = OfferItem {
        item_type: ItemType::ERC20,
        token: token_a(),
        identifier_or_criteria: U256::from_u64(0),
        start_amount: U256::from_u64(offer_amount),
        end_amount: U256::from_u64(offer_amount),
    };
    let consider_item = ConsiderationItem {
        item_type: ItemType::ERC20,
        token: token_b(),
        identifier_or_criteria: U256::from_u64(0),
        start_amount: U256::from_u64(consideration_amount),
        end_amount: U256::from_u64(consideration_amount),
        recipient: wallet_address(),
    };
    OrderComponents {
        offerer: wallet_address(),
        zone: zone(),
        offer: vec![offer_item],
        consideration: vec![consider_item],
        order_type: OrderType::PARTIAL_RESTRICTED,
        start_time: U256::from_u64(1697240202),
        end_time: U256::from_u64(1697240202 + 1000 * 60 * 60 * 24),
        zone_hash: B256::zero(),
        salt: U256::from_u64(0),
        conduit_key: B256::zero(),
        counter: U256::from_u64(0),
    }
}

#[test]
fn generate_order_sig() {
    let key = PrivateKey::parse(&key_text()).unwrap();
    let offer_item = OfferItem {
        item_type: ItemType::ERC20,
        token: Address::zero(),
        identifier_or_criteria: U256::from_u64(0),
        start_amount: U256::from_u64(0),
        end_amount: U256::from_u64(0),
    };
    let consider_item = ConsiderationItem {
        item_type: ItemType::ERC20,
        token: Address::zero(),
        identifier_or_criteria: U256::from_u64(0),
        start_amount: U256::from_u64(0),
        end_amount: U256::from_u64(0),
        recipient: Address::zero(),
    };
    let order_components = OrderComponents {
        offerer: Address::zero(),
        zone: zone(),
        offer: vec![offer_item],
        consideration: vec![consider_item],
        order_type: OrderType::PARTIAL_RESTRICTED,
        start_time: U256::from_u64(1697240202),
        end_time: U256::from_u64(1697240202),
        zone_hash: B256::zero(),
        salt: U256::from_u64(0),
        conduit_key: B256::zero(),
        counter: U256::from_u64(0),
    };

    let params_sig = order_components.eip712_signing_hash(&resolve_domain(5));

    let signed_bytes = key.sign_plaintext(&params_sig.bytes).unwrap();
    let signed_slice = key.sign_digest(&params_sig).unwrap();
    println!("{}", signed_bytes.to_hex());
    println!("{}", signed_slice.to_hex());

    // The two modes sign different hashes, so the signatures differ, and only
    // the digest-mode signature recovers to the signer over the digest.
    assert_ne!(signed_bytes, signed_slice);
    assert_eq!(recover(&signed_slice, params_sig.bytes), signer_address());
    assert_ne!(recover(&signed_bytes, params_sig.bytes), signer_address());
    let personal = ethers_core::utils::hash_message(params_sig.bytes).0;
    assert_eq!(recover(&signed_bytes, personal), signer_address());
    assert!(signed_slice.v() == 27 || signed_slice.v() == 28);
}

#[test]
fn signing_is_repeatable() {
    let key = PrivateKey::parse(&key_text()).unwrap();
    let order = sample_order(1000, 1500);
    let hash = digest(&order, &resolve_domain(5));
    assert_eq!(key.sign_digest(&hash).unwrap(), key.sign_digest(&hash).unwrap());
    assert_eq!(
        key.sign_plaintext(b"hello").unwrap(),
        key.sign_plaintext(b"hello").unwrap()
    );
    assert_ne!(
        key.sign_plaintext(b"hello").unwrap(),
        key.sign_plaintext(b"hellp").unwrap()
    );
}

#[test]
fn plaintext_signature_matches_the_wallet() {
    let key = PrivateKey::parse(&key_text()).unwrap();
    let signature = key.sign_plaintext(b"hello").unwrap();
    let expected = ethers_core::types::Signature::try_from(&signature.bytes[..]).unwrap();
    assert_eq!(expected.recover("hello").unwrap(), signer_address());
    assert_eq!(signature.to_hex(), format!("0x{}", expected));
}

#[test]
fn plaintext_mode_hashes_under_the_personal_message_scheme() {
    let key = PrivateKey::parse(&key_text()).unwrap();
    let message = wallet_address_text();
    assert_eq!(message.len(), 42);
    let mut framed = b"\x19Ethereum Signed Message:\n42".to_vec();
    framed.extend_from_slice(message.as_bytes());
    let hash = alloy_primitives::keccak256(&framed).0;
    let signature = key.sign_plaintext(message.as_bytes()).unwrap();
    assert_eq!(recover(&signature, hash), signer_address());
    let as_digest = key
        .sign_digest(&aori_requests::eip712::Digest32 { bytes: hash })
        .unwrap();
    assert_eq!(signature, as_digest);
    assert_eq!(signature.r()[..], signature.bytes[..32]);
    assert_eq!(signature.s()[..], signature.bytes[32..64]);
    assert_eq!(signature.v(), signature.bytes[64]);
    assert_eq!(signature.to_hex().len(), 132);
}

#[test]
fn order_window() {
    let mut order = sample_order(1000, 1500);
    assert!(order.is_well_formed());
    order.end_time = order.start_time;
    assert!(order.is_well_formed());
    order.end_time = U256::from_u64(1697240201);
    assert!(!order.is_well_formed());
}

#[test]
fn key_texts() {
    assert!(PrivateKey::parse(&key_text()).is_ok());
    assert!(PrivateKey::parse(&format!("0x{}", key_text())).is_ok());
    let other = PrivateKey::parse(&"02".repeat(32)).unwrap();
    let first = PrivateKey::parse(&key_text()).unwrap();
    assert_ne!(
        other.sign_plaintext(b"hello").unwrap(),
        first.sign_plaintext(b"hello").unwrap()
    );
    for bad in ["", "01", "zz", &"00".repeat(32), &"01".repeat(31), &"01".repeat(33)] {
        match PrivateKey::parse(bad) {
            Err(SigningError::MalformedKey { cause }) => assert!(!cause.is_empty()),
            _ => panic!("accepted {:?}", bad),
        }
    }
}

#[test]
fn settings_are_checked_in_order() {
    let some = |s: &str| Some(String::from(s));
    assert_eq!(
        EnvConfig::from_values(None, None, None),
        Err(ProviderError::MissingSetting(Setting::PrivateKey))
    );
    assert_eq!(
        EnvConfig::from_values(None, some("a"), some("n")),
        Err(ProviderError::MissingSetting(Setting::PrivateKey))
    );
    assert_eq!(
        EnvConfig::from_values(some("k"), None, None),
        Err(ProviderError::MissingSetting(Setting::WalletAddress))
    );
    assert_eq!(
        EnvConfig::from_values(some("k"), some("a"), None),
        Err(ProviderError::MissingSetting(Setting::NodeUrl))
    );
    assert_eq!(
        EnvConfig::from_values(some("k"), some("a"), some("n")),
        Ok(EnvConfig {
            private_key: String::from("k"),
            wallet_address: String::from("a"),
            node_url: String::from("n"),
        })
    );
}

#[test]
fn malformed_key_makes_no_session() {
    let config = EnvConfig {
        private_key: String::from("not a key"),
        wallet_address: wallet_address_text(),
        node_url: String::from("ws://localhost:8546"),
    };
    match AoriProvider::new_from_env(config, 5) {
        Err(ProviderError::MalformedPrivateKey { cause }) => assert!(!cause.is_empty()),
        _ => panic!("a session was made"),
    }
}

#[test]
fn new_session() {
    let apv = session(5);
    assert_eq!(apv.chain_id(), 5);
    assert_eq!(apv.last_id(), 0);
    assert_eq!(apv.wallet_addr(), wallet_address_text());
    assert_eq!(apv.auth_token(), None);
    assert_eq!(*apv.domain(), resolve_domain(5));
    let proof = signature_from_hex(apv.wallet_sig());
    let personal = ethers_core::utils::hash_message(wallet_address_text()).0;
    assert_eq!(recover(&proof, personal), signer_address());
    assert_eq!(session(137).chain_id(), 137);
    assert_eq!(session(137).wallet_sig(), apv.wallet_sig());
}

#[test]
fn test_connection() {
    let mut apv = session(5);
    let out = apv.ping();
    println!("{:#?}", out);
    assert_eq!(out.id, 1);
    assert_eq!(out.method, Method::Ping);
    assert_eq!(out.channel, Channel::Request);
    assert_eq!(
        out.text,
        "{\"id\":1,\"jsonrpc\":\"2.0\",\"method\":\"aori_ping\",\"params\":[]}"
    );
    assert_eq!(apv.last_id(), 1);
}

#[test]
fn test_auth() {
    let mut apv = session(5);

    let ping = apv.ping();
    let ping_doc = parsed(&ping);
    assert_eq!(ping_doc["id"], 1);
    assert_eq!(ping_doc["method"], "aori_ping");
    assert_eq!(ping_doc["params"], Value::Array(vec![]));

    let auth = apv.auth_wallet();
    assert_eq!(auth.channel, Channel::Request);
    let auth_doc = parsed(&auth);
    println!("{:#?}", auth_doc);
    assert_eq!(auth_doc["id"], 2);
    assert_eq!(auth_doc["jsonrpc"], "2.0");
    assert_eq!(auth_doc["method"], "aori_authWallet");
    assert_eq!(auth_doc["params"].as_array().unwrap().len(), 1);
    assert_eq!(auth_doc["params"][0]["address"], wallet_address_text());
    let signature = auth_doc["params"][0]["signature"].as_str().unwrap();
    assert!(!signature.is_empty());
    assert!(signature.starts_with("0x"));
    assert_eq!(signature, apv.wallet_sig());
    assert_eq!(auth_doc["params"][0].as_object().unwrap().len(), 2);
    assert_eq!(apv.auth_token(), None);

    let check = apv.check_auth("tok123");
    assert_eq!(check.channel, Channel::Request);
    assert_eq!(
        check.text,
        "{\"id\":3,\"jsonrpc\":\"2.0\",\"method\":\"aori_checkAuth\",\"params\":[{\"auth\":\"tok123\"}]}"
    );
    assert_eq!(apv.auth_token(), Some("tok123"));
    assert_eq!(apv.last_id(), 3);
}

#[test]
fn quoted_token_passes_through() {
    let mut apv = session(5);
    let jwt = Value::String(String::from("abc.def")).to_string();
    assert_eq!(jwt, "\"abc.def\"");
    let check = apv.check_auth(jwt.as_str());
    assert_eq!(
        check.text,
        "{\"id\":1,\"jsonrpc\":\"2.0\",\"method\":\"aori_checkAuth\",\"params\":[{\"auth\":\"\\\"abc.def\\\"\"}]}"
    );
    assert_eq!(parsed(&check)["params"][0]["auth"], "\"abc.def\"");
    let odd = "line\nbreak \\ tab\t é ☃";
    let check = apv.check_auth(odd);
    assert_eq!(parsed(&check)["params"][0]["auth"], odd);
    assert_eq!(apv.auth_token(), Some(odd));
}

#[test]
fn view_orderbook_request() {
    let mut apv = session(5);
    let out = apv.view_orderbook(
        "0x2715Ccea428F8c7694f7e78B2C89cb454c5F7294",
        "0xD3664B5e72B46eaba722aB6f43c22dBF40181954",
    );
    assert_eq!(out.id, 1);
    assert_eq!(out.method, Method::ViewOrderbook);
    assert_eq!(out.channel, Channel::Request);
    assert_eq!(
        out.text,
        "{\"id\":1,\"jsonrpc\":\"2.0\",\"method\":\"aori_viewOrderbook\",\"params\":[{\"chainId\":5,\"query\":{\"base\":\"0x2715Ccea428F8c7694f7e78B2C89cb454c5F7294\",\"quote\":\"0xD3664B5e72B46eaba722aB6f43c22dBF40181954\"}}]}"
    );
    let out = session(u64::MAX).view_orderbook("a", "b");
    assert_eq!(parsed(&out)["params"][0]["chainId"], u64::MAX);
}

#[test]
fn subscribe_goes_on_the_feed_channel() {
    let mut apv = session(5);
    let out = apv.subscribe_orderbook();
    assert_eq!(out.channel, Channel::Feed);
    assert_eq!(out.method, Method::SubscribeOrderbook);
    assert_eq!(
        out.text,
        "{\"id\":1,\"jsonrpc\":\"2.0\",\"method\":\"aori_subscribeOrderbook\",\"params\":[]}"
    );
}

#[test]
fn test_make_order() {
    let mut apv = session(5);
    let order_params = sample_order(1000, 1500);
    let expected_digest = digest(&order_params, &resolve_domain(5));

    let out = apv.make_order(order_params.clone()).unwrap();
    assert_eq!(out.id, 1);
    assert_eq!(out.method, Method::MakeOrder);
    assert_eq!(out.channel, Channel::Request);
    let doc = parsed(&out);
    println!("{:#?}", doc);
    assert_eq!(doc["id"], 1);
    assert_eq!(doc["jsonrpc"], "2.0");
    assert_eq!(doc["method"], "aori_makeOrder");
    assert_eq!(doc["params"].as_array().unwrap().len(), 1);
    let param = &doc["params"][0];
    assert_eq!(param["isPublic"], true);
    assert_eq!(param["chainId"], 5);
    assert_eq!(param.as_object().unwrap().len(), 3);
    assert_eq!(param["order"].as_object().unwrap().len(), 2);

    let parameters = &param["order"]["parameters"];
    assert_eq!(*parameters, order_params.to_json());
    assert_eq!(parameters["offer"][0]["startAmount"], "1000");
    assert_eq!(parameters["offer"][0]["endAmount"], "1000");
    assert_eq!(parameters["offer"][0]["itemType"], 1);
    assert_eq!(
        parameters["offer"][0]["token"],
        "0x2715Ccea428F8c7694f7e78B2C89cb454c5F7294"
    );
    assert_eq!(parameters["offer"][0]["identifierOrCriteria"], "0");
    assert_eq!(parameters["consideration"][0]["startAmount"], "1500");
    assert_eq!(
        parameters["consideration"][0]["token"],
        "0xD3664B5e72B46eaba722aB6f43c22dBF40181954"
    );
    assert_eq!(
        parameters["consideration"][0]["recipient"],
        parameters["offerer"]
    );
    assert_eq!(parameters["offerer"], wallet_address().to_checksum());
    assert_eq!(parameters["zone"], "0xeA2b4e7F02b859305093f9F4778a19D66CA176d5");
    assert_eq!(parameters["orderType"], 3);
    assert_eq!(parameters["startTime"], "1697240202");
    assert_eq!(parameters["endTime"], "1783640202");
    assert_eq!(
        parameters["zoneHash"],
        "0x0000000000000000000000000000000000000000000000000000000000000000"
    );
    assert_eq!(parameters["salt"], "0");
    assert_eq!(parameters["conduitKey"], parameters["zoneHash"]);
    assert_eq!(parameters["counter"], "0");
    assert_eq!(parameters.as_object().unwrap().len(), 11);

    let signature = signature_from_hex(param["order"]["signature"].as_str().unwrap());
    assert_eq!(recover(&signature, expected_digest.bytes), signer_address());
}

#[test]
fn order_signature_is_bound_to_the_chain() {
    let order = sample_order(1000, 1500);
    let on_goerli = session(5).make_order(order.clone()).unwrap();
    let on_mainnet = session(1).make_order(order.clone()).unwrap();
    let goerli_sig = parsed(&on_goerli)["params"][0]["order"]["signature"].clone();
    let mainnet_sig = parsed(&on_mainnet)["params"][0]["order"]["signature"].clone();
    assert_ne!(goerli_sig, mainnet_sig);
    let signature = signature_from_hex(mainnet_sig.as_str().unwrap());
    let mainnet_digest = digest(&order, &resolve_domain(1));
    let goerli_digest = digest(&order, &resolve_domain(5));
    assert_eq!(recover(&signature, mainnet_digest.bytes), signer_address());
    assert_ne!(recover(&signature, goerli_digest.bytes), signer_address());
}

#[test]
fn order_rendering() {
    let mut order = sample_order(1000, 1500);
    order.offer.push(OfferItem {
        item_type: ItemType::ERC1155_WITH_CRITERIA,
        token: token_b(),
        identifier_or_criteria: U256::from_u128(u128::MAX),
        start_amount: U256::from_u64(2),
        end_amount: U256::from_u64(1),
    });
    order.consideration.clear();
    let rendered = order.to_json();
    assert_eq!(rendered["offer"].as_array().unwrap().len(), 2);
    assert_eq!(rendered["offer"][1]["itemType"], 5);
    assert_eq!(
        rendered["offer"][1]["identifierOrCriteria"],
        "340282366920938463463374607431768211455"
    );
    assert_eq!(rendered["offer"][1]["startAmount"], "2");
    assert_eq!(rendered["offer"][1]["endAmount"], "1");
    assert_eq!(rendered["offer"][1].as_object().unwrap().len(), 5);
    assert_eq!(rendered["offer"][0], order.offer[0].to_json());
    assert_eq!(rendered["consideration"], Value::Array(vec![]));
    let item = sample_order(1, 2).consideration[0].to_json();
    assert_eq!(item.as_object().unwrap().len(), 6);
    assert_eq!(
        item.to_string(),
        format!(
            "{{\"endAmount\":\"2\",\"identifierOrCriteria\":\"0\",\"itemType\":1,\"recipient\":\"{}\",\"startAmount\":\"2\",\"token\":\"0xD3664B5e72B46eaba722aB6f43c22dBF40181954\"}}",
            wallet_address().to_checksum()
        )
    );
}

#[test]
fn ids_count_up_across_methods() {
    let mut apv = session(5);
    let mut sent: Vec<Outbound> = Vec::new();
    sent.push(apv.ping());
    sent.push(apv.subscribe_orderbook());
    sent.push(apv.auth_wallet());
    sent.push(apv.check_auth("tok123"));
    sent.push(apv.view_orderbook("a", "b"));
    sent.push(apv.make_order(sample_order(1000, 1500)).unwrap());
    sent.push(apv.ping());
    sent.push(apv.subscribe_orderbook());
    for (i, out) in sent.iter().enumerate() {
        assert_eq!(out.id, i as u64 + 1);
        assert_eq!(parsed(out)["id"], i as u64 + 1);
        assert_eq!(parsed(out)["method"], out.method.as_str());
        assert_eq!(out.channel, out.method.on_channel());
        if out.method == Method::SubscribeOrderbook {
            assert_eq!(out.channel, Channel::Feed);
        } else {
            assert_eq!(out.channel, Channel::Request);
        }
    }
    assert_eq!(apv.last_id(), 8);
}

#[test]
fn method_names_and_channels() {
    assert_eq!(Method::Ping.as_str(), "aori_ping");
    assert_eq!(Method::AuthWallet.as_str(), "aori_authWallet");
    assert_eq!(Method::CheckAuth.as_str(), "aori_checkAuth");
    assert_eq!(Method::ViewOrderbook.as_str(), "aori_viewOrderbook");
    assert_eq!(Method::MakeOrder.as_str(), "aori_makeOrder");
    assert_eq!(Method::SubscribeOrderbook.as_str(), "aori_subscribeOrderbook");
    assert_eq!(Method::Ping.on_channel(), Channel::Request);
    assert_eq!(Method::AuthWallet.on_channel(), Channel::Request);
    assert_eq!(Method::CheckAuth.on_channel(), Channel::Request);
    assert_eq!(Method::ViewOrderbook.on_channel(), Channel::Request);
    assert_eq!(Method::MakeOrder.on_channel(), Channel::Request);
    assert_eq!(Method::SubscribeOrderbook.on_channel(), Channel::Feed);
}
