use alloy_primitives::keccak256;
use aori_requests::eip712::{
    digest, CONSIDERATION_ITEM_TYPE, DOMAIN_TYPE, OFFER_ITEM_TYPE, ORDER_COMPONENTS_TYPE,
};
use aori_requests::primitives::{Address, B256, U256};
use aori_requests::seaport::{
    current_seaport_address, resolve_domain, ConsiderationItem, DomainDescriptor, ItemType,
    OfferItem, OrderComponents, OrderType,
};

fn word_u8(v: u8) -> Vec<u8> {
    let mut w = vec![0u8; 31];
    w.push(v);
    w
}

fn word_address(a: &Address) -> Vec<u8> {
    let mut w = vec![0u8; 12];
    w.extend_from_slice(&a.bytes);
    w
}

fn expected_offer_item_hash(item: &OfferItem) -> [u8; 32] {
    let mut buf = keccak256(OFFER_ITEM_TYPE.as_bytes()).0.to_vec();
    buf.extend(word_u8(item.item_type.as_u8()));
    buf.extend(word_address(&item.token));
    buf.extend_from_slice(&item.identifier_or_criteria.bytes);
    buf.extend_from_slice(&item.start_amount.bytes);
    buf.extend_from_slice(&item.end_amount.bytes);
    keccak256(&buf).0
}

fn expected_consideration_item_hash(item: &ConsiderationItem) -> [u8; 32] {
    let mut buf = keccak256(CONSIDERATION_ITEM_TYPE.as_bytes()).0.to_vec();
    buf.extend(word_u8(item.item_type.as_u8()));
    buf.extend(word_address(&item.token));
    buf.extend_from_slice(&item.identifier_or_criteria.bytes);
    buf.extend_from_slice(&item.start_amount.bytes);
    buf.extend_from_slice(&item.end_amount.bytes);
    buf.extend(word_address(&item.recipient));
    keccak256(&buf).0
}

fn expected_order_hash(order: &OrderComponents) -> [u8; 32] {
    let type_text = format!(
        "{}{}{}",
        ORDER_COMPONENTS_TYPE, CONSIDERATION_ITEM_TYPE, OFFER_ITEM_TYPE
    );
    let mut offer = Vec::new();
    for item in &order.offer {
        offer.extend_from_slice(&expected_offer_item_hash(item));
    }
    let mut consideration = Vec::new();
    for item in &order.consideration {
        consideration.extend_from_slice(&expected_consideration_item_hash(item));
    }
    let mut buf = keccak256(type_text.as_bytes()).0.to_vec();
    buf.extend(word_address(&order.offerer));
    buf.extend(word_address(&order.zone));
    buf.extend_from_slice(&keccak256(&offer).0);
    buf.extend_from_slice(&keccak256(&consideration).0);
    buf.extend(word_u8(order.order_type.as_u8()));
    buf.extend_from_slice(&order.start_time.bytes);
    buf.extend_from_slice(&order.end_time.bytes);
    buf.extend_from_slice(&order.zone_hash.bytes);
    buf.extend_from_slice(&order.salt.bytes);
    buf.extend_from_slice(&order.conduit_key.bytes);
    buf.extend_from_slice(&order.counter.bytes);
    keccak256(&buf).0
}

fn alloy_domain(domain: &DomainDescriptor) -> alloy_sol_types::Eip712Domain {
    alloy_sol_types::Eip712Domain::new(
        Some(domain.name.clone().into()),
        Some(domain.version.clone().into()),
        Some(alloy_primitives::U256::from(domain.chain_id)),
        Some(alloy_primitives::Address::from(domain.verifying_contract.bytes)),
        None,
    )
}

fn token_a() -> Address {
    Address {
        bytes: [
            0x27, 0x15, 0xcc, 0xea, 0x42, 0x8f, 0x8c, 0x76, 0x94, 0xf7, 0xe7, 0x8b, 0x2c, 0x89,
            0xcb, 0x45, 0x4c, 0x5f, 0x72, 0x94,
        ],
    }
}

fn token_b() -> Address {
    Address {
        bytes: [
            0xd3, 0x66, 0x4b, 0x5e, 0x72, 0xb4, 0x6e, 0xab, 0xa7, 0x22, 0xab, 0x6f, 0x43, 0xc2,
            0x2d, 0xbf, 0x40, 0x18, 0x19, 0x54,
        ],
    }
}

fn wallet() -> Address {
    Address {
        bytes: [
            0xd8, 0xda, 0x6b, 0xf2, 0x69, 0x64, 0xaf, 0x9d, 0x7e, 0xed, 0x9e, 0x03, 0xe5, 0x34,
            0x15, 0xd3, 0x7a, 0xa9, 0x60, 0x45,
        ],
    }
}

fn offer_item(amount: u64) -> OfferItem {
    OfferItem {
        item_type: ItemType::ERC20,
        token: token_a(),
        identifier_or_criteria: U256::from_u64(0),
        start_amount: U256::from_u64(amount),
        end_amount: U256::from_u64(amount),
    }
}

fn consideration_item(amount: u64) -> ConsiderationItem {
    ConsiderationItem {
        item_type: ItemType::ERC20,
        token: token_b(),
        identifier_or_criteria: U256::from_u64(0),
        start_amount: U256::from_u64(amount),
        end_amount: U256::from_u64(amount),
        recipient: wallet(),
    }
}

fn sample_order(offer: Vec<OfferItem>, consideration: Vec<ConsiderationItem>) -> OrderComponents {
    OrderComponents {
        offerer: wallet(),
        zone: Address::zero(),
        offer,
        consideration,
        order_type: OrderType::PARTIAL_RESTRICTED,
        start_time: U256::from_u64(1697240202),
        end_time: U256::from_u64(1697240202 + 86400),
        zone_hash: B256::zero(),
        salt: U256::from_u64(7),
        conduit_key: B256::zero(),
        counter: U256::from_u64(0),
    }
}

#[test]
fn load_lazy() {
    let dom = resolve_domain(5);
    println!("{:?}", dom);
    assert_eq!(dom.name, "Seaport");
    assert_eq!(dom.version, "1.5");
    assert_eq!(dom.chain_id, 5);
    assert_eq!(dom.verifying_contract, current_seaport_address());
}

#[test]
fn type_signatures_hash_to_the_published_values() {
    assert_eq!(
        keccak256(OFFER_ITEM_TYPE.as_bytes()).to_string(),
        "0xa66999307ad1bb4fde44d13a5d710bd7718e0c87c1eef68a571629fbf5b93d02"
    );
    assert_eq!(
        keccak256(CONSIDERATION_ITEM_TYPE.as_bytes()).to_string(),
        "0x42d81c6929ffdc4eb27a0808e40e82516ad42296c166065de7f812492304ff6e"
    );
    let order_type = format!(
        "{}{}{}",
        ORDER_COMPONENTS_TYPE, CONSIDERATION_ITEM_TYPE, OFFER_ITEM_TYPE
    );
    assert_eq!(
        keccak256(order_type.as_bytes()).to_string(),
        "0xfa445660b7e21515a59617fcd68910b487aa5808b8abda3d78bc85df364b2c2f"
    );
}

#[test]
fn domain_type_hash_is_the_standard_one() {
    let expected = "0x8b73c3c69bb8fe3d512ecc4cf759cc79239f7b179b0ffacaa9a75d522b39400f";
    assert_eq!(keccak256(DOMAIN_TYPE.as_bytes()).to_string(), expected);
}

#[test]
fn domain_separator_matches_the_typed_data_crate() {
    for chain_id in [1u64, 5, 137, u64::MAX] {
        let domain = resolve_domain(chain_id);
        let expected = alloy_domain(&domain).separator();
        assert_eq!(domain.separator().bytes, expected.0);
    }
}

#[test]
fn domain_separator_of_a_custom_domain() {
    let domain = DomainDescriptor {
        name: String::from("Überbörse"),
        version: String::from("2"),
        chain_id: 31337,
        verifying_contract: token_a(),
    };
    assert_eq!(domain.separator().bytes, alloy_domain(&domain).separator().0);
}

#[test]
fn order_hash_follows_the_layout() {
    let order = sample_order(
        vec![offer_item(1000), offer_item(2000)],
        vec![consideration_item(1500)],
    );
    assert_eq!(order.eip712_hash_struct().bytes, expected_order_hash(&order));
    let empty = sample_order(vec![], vec![]);
    assert_eq!(empty.eip712_hash_struct().bytes, expected_order_hash(&empty));
}

#[test]
fn digest_binds_domain_and_order() {
    let order = sample_order(vec![offer_item(1000)], vec![consideration_item(1500)]);
    let domain = resolve_domain(5);
    let mut input = vec![0x19u8, 0x01u8];
    input.extend_from_slice(&alloy_domain(&domain).separator().0);
    input.extend_from_slice(&expected_order_hash(&order));
    let expected = keccak256(&input).0;
    assert_eq!(digest(&order, &domain).bytes, expected);
    assert_eq!(order.eip712_signing_hash(&domain).bytes, expected);
}

#[test]
fn digest_is_deterministic() {
    let order = sample_order(vec![offer_item(1000)], vec![consideration_item(1500)]);
    let copy = order.clone();
    let d1 = digest(&order, &resolve_domain(5));
    let d2 = digest(&copy, &resolve_domain(5));
    assert_eq!(order, copy);
    assert_eq!(d1, d2);
    assert_eq!(d1.bytes, digest(&order, &resolve_domain(5)).bytes);
}

#[test]
fn digest_differs_across_chains() {
    let order = sample_order(vec![offer_item(1000)], vec![consideration_item(1500)]);
    let on_mainnet = digest(&order, &resolve_domain(1));
    let on_goerli = digest(&order, &resolve_domain(5));
    assert_ne!(on_mainnet, on_goerli);
    assert_ne!(
        resolve_domain(1).separator(),
        resolve_domain(5).separator()
    );
}

#[test]
fn digest_differs_with_item_order() {
    let domain = resolve_domain(5);
    let first = sample_order(
        vec![offer_item(1000), offer_item(2000)],
        vec![consideration_item(1500), consideration_item(2500)],
    );
    let offer_swapped = sample_order(
        vec![offer_item(2000), offer_item(1000)],
        vec![consideration_item(1500), consideration_item(2500)],
    );
    let consideration_swapped = sample_order(
        vec![offer_item(1000), offer_item(2000)],
        vec![consideration_item(2500), consideration_item(1500)],
    );
    assert_ne!(first, offer_swapped);
    assert_ne!(digest(&first, &domain), digest(&offer_swapped, &domain));
    assert_ne!(digest(&first, &domain), digest(&consideration_swapped, &domain));
    assert_ne!(
        digest(&offer_swapped, &domain),
        digest(&consideration_swapped, &domain)
    );
}

#[test]
fn digest_differs_with_each_field() {
    let domain = resolve_domain(5);
    let base = sample_order(vec![offer_item(1000)], vec![consideration_item(1500)]);
    let base_digest = digest(&base, &domain);
    let mut other = base.clone();
    other.salt = U256::from_u64(8);
    assert_ne!(digest(&other, &domain), base_digest);
    let mut other = base.clone();
    other.order_type = OrderType::FULL_OPEN;
    assert_ne!(digest(&other, &domain), base_digest);
    let mut other = base.clone();
    other.zone = token_a();
    assert_ne!(digest(&other, &domain), base_digest);
    let mut other = base.clone();
    other.offer[0].item_type = ItemType::ERC721;
    assert_ne!(digest(&other, &domain), base_digest);
    let mut other = base.clone();
    other.consideration[0].recipient = token_b();
    assert_ne!(digest(&other, &domain), base_digest);
}
