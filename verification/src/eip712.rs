//! The typed-data signing digest of an order.
//!
//! Every structure is laid out as 32-byte words behind the hash of its type
//! signature and then hashed; a nested structure enters its parent as its own
//! hash, an array as the hash of its elements' hashes laid end to end. The
//! digest binds the order's hash to the hash of the signing domain.

use vstd::prelude::*;
use vstd::string::StringSliceAdditionalSpecFns;
use vstd::utf8::encode_utf8;
use crate::bytes::{be_bytes, lemma_be_bytes_len};
use crate::keccak::{hash_bytes, keccak256, keccak256_of};
use crate::primitives::{Address, B256, U256};
use crate::seaport::{
    ConsiderationItem, Domain, DomainDescriptor, OfferItem, Order, OrderComponents,
};

verus! {

/// The type signature of an offer item.
pub const OFFER_ITEM_TYPE: &'static str =
    "OfferItem(uint8 itemType,address token,uint256 identifierOrCriteria,uint256 startAmount,uint256 endAmount)";

/// The type signature of a consideration item.
pub const CONSIDERATION_ITEM_TYPE: &'static str =
    "ConsiderationItem(uint8 itemType,address token,uint256 identifierOrCriteria,uint256 startAmount,uint256 endAmount,address recipient)";

/// The type signature of an order by itself, without those of its item types.
pub const ORDER_COMPONENTS_TYPE: &'static str =
    "OrderComponents(address offerer,address zone,OfferItem[] offer,ConsiderationItem[] consideration,uint8 orderType,uint256 startTime,uint256 endTime,bytes32 zoneHash,uint256 salt,bytes32 conduitKey,uint256 counter)";

/// The type signature of a signing domain.
pub const DOMAIN_TYPE: &'static str =
    "EIP712Domain(string name,string version,uint256 chainId,address verifyingContract)";

/// A digest ready to be signed, as distinct from a message that is yet to be
/// hashed.
#[derive(Clone, Copy, Debug, PartialEq, Eq)]
pub struct Digest32 {
    pub bytes: [u8; 32],
}

/// A small integer as a 32-byte word.
pub open spec fn u8_word(v: u8) -> Seq<u8> {
    Seq::new(31, |i: int| 0u8).push(v)
}

/// The full type signature of an order: its own, then those of the structures
/// it refers to, in the order of their names.
pub open spec fn order_type_bytes() -> Seq<u8> {
    ORDER_COMPONENTS_TYPE.spec_bytes() + CONSIDERATION_ITEM_TYPE.spec_bytes()
        + OFFER_ITEM_TYPE.spec_bytes()
}

/// An offer item as it is hashed: the hash of its type signature, then its
/// fields, one word each.
pub open spec fn offer_item_encoding(item: OfferItem) -> Seq<u8> {
    keccak256(OFFER_ITEM_TYPE.spec_bytes())@ + u8_word(item.item_type.code()) + item.token.word()
        + item.identifier_or_criteria.bytes@ + item.start_amount.bytes@ + item.end_amount.bytes@
}

/// The hash that stands for an offer item.
pub open spec fn offer_item_hash(item: OfferItem) -> [u8; 32] {
    keccak256(offer_item_encoding(item))
}

/// A consideration item as it is hashed: the hash of its type signature,
/// then its fields, one word each.
pub open spec fn consideration_item_encoding(item: ConsiderationItem) -> Seq<u8> {
    keccak256(CONSIDERATION_ITEM_TYPE.spec_bytes())@ + u8_word(item.item_type.code())
        + item.token.word() + item.identifier_or_criteria.bytes@ + item.start_amount.bytes@
        + item.end_amount.bytes@ + item.recipient.word()
}

/// The hash that stands for a consideration item.
pub open spec fn consideration_item_hash(item: ConsiderationItem) -> [u8; 32] {
    keccak256(consideration_item_encoding(item))
}

/// The hashes of the offer items, laid end to end in the items' order.
pub open spec fn offer_hashes(items: Seq<OfferItem>) -> Seq<u8> {
    Seq::new(32 * items.len(), |k: int| offer_item_hash(items[k / 32])@[k % 32])
}

/// The hashes of the consideration items, laid end to end in the items' order.
pub open spec fn consideration_hashes(items: Seq<ConsiderationItem>) -> Seq<u8> {
    Seq::new(32 * items.len(), |k: int| consideration_item_hash(items[k / 32])@[k % 32])
}

/// An order as it is hashed: the hash of its type signature, then its
/// fields, one word each, the two arrays as the hashes of their runs of item
/// hashes.
pub open spec fn order_encoding(order: Order) -> Seq<u8> {
    keccak256(order_type_bytes())@ + order.offerer.word() + order.zone.word() + keccak256(
        offer_hashes(order.offer),
    )@ + keccak256(consideration_hashes(order.consideration))@ + u8_word(order.order_type.code())
        + order.start_time.bytes@ + order.end_time.bytes@ + order.zone_hash.bytes@
        + order.salt.bytes@ + order.conduit_key.bytes@ + order.counter.bytes@
}

/// The hash of an order by itself, under no domain.
pub open spec fn order_hash(order: Order) -> [u8; 32] {
    keccak256(order_encoding(order))
}

/// A domain as it is hashed: the hash of its type signature, the hashes of
/// name and version, the chain id as a 256-bit number, the contract.
pub open spec fn domain_encoding(domain: Domain) -> Seq<u8> {
    keccak256(DOMAIN_TYPE.spec_bytes())@ + keccak256(encode_utf8(domain.name))@ + keccak256(
        encode_utf8(domain.version),
    )@ + be_bytes(domain.chain_id as nat, 32) + domain.verifying_contract.word()
}

/// The hash that stands for a signing domain.
pub open spec fn domain_separator(domain: Domain) -> [u8; 32] {
    keccak256(domain_encoding(domain))
}

/// What is hashed last: two fixed bytes, the domain's hash, the order's hash.
pub open spec fn digest_preimage(order: Order, domain: Domain) -> Seq<u8> {
    seq![0x19u8, 0x01u8] + domain_separator(domain)@ + order_hash(order)@
}

/// The digest of `order` under `domain`.
pub open spec fn signing_digest(order: Order, domain: Domain) -> [u8; 32] {
    keccak256(digest_preimage(order, domain))
}

fn push_zeros(buf: &mut Vec<u8>, count: usize)
    ensures
        final(buf)@ == old(buf)@ + Seq::new(count as nat, |i: int| 0u8),
{
    let mut i: usize = 0;
    while i < count
        invariant
            i <= count,
            buf@ == old(buf)@ + Seq::new(i as nat, |k: int| 0u8),
        decreases count - i,
    {
        buf.push(0u8);
        i = i + 1;
        assert(buf@ =~= old(buf)@ + Seq::new(i as nat, |k: int| 0u8));
    }
}

fn push_u8_word(buf: &mut Vec<u8>, v: u8)
    ensures
        final(buf)@ == old(buf)@ + u8_word(v),
{
    push_zeros(buf, 31);
    buf.push(v);
    assert(buf@ =~= old(buf)@ + u8_word(v));
}

fn push_address_word(buf: &mut Vec<u8>, address: &Address)
    ensures
        final(buf)@ == old(buf)@ + address.word(),
{
    push_zeros(buf, 12);
    buf.extend_from_slice(address.bytes.as_slice());
    assert(buf@ =~= old(buf)@ + address.word());
}

fn push_word(buf: &mut Vec<u8>, word: &[u8; 32])
    ensures
        final(buf)@ == old(buf)@ + word@,
{
    buf.extend_from_slice(word.as_slice());
}

/// The hash of the type signature of an order, with its item types.
fn order_type_hash() -> (hash: [u8; 32])
    ensures
        hash == keccak256(order_type_bytes()),
{
    let mut text: Vec<u8> = Vec::new();
    text.extend_from_slice(ORDER_COMPONENTS_TYPE.as_bytes());
    text.extend_from_slice(CONSIDERATION_ITEM_TYPE.as_bytes());
    text.extend_from_slice(OFFER_ITEM_TYPE.as_bytes());
    assert(text@ =~= order_type_bytes());
    hash_bytes(&text)
}

fn hash_offer_item(item: &OfferItem, type_hash: &[u8; 32]) -> (hash: [u8; 32])
    requires
        *type_hash == keccak256(OFFER_ITEM_TYPE.spec_bytes()),
    ensures
        hash == offer_item_hash(*item),
{
    let mut buf: Vec<u8> = Vec::new();
    push_word(&mut buf, type_hash);
    push_u8_word(&mut buf, item.item_type.as_u8());
    push_address_word(&mut buf, &item.token);
    push_word(&mut buf, &item.identifier_or_criteria.bytes);
    push_word(&mut buf, &item.start_amount.bytes);
    push_word(&mut buf, &item.end_amount.bytes);
    assert(buf@ =~= offer_item_encoding(*item));
    hash_bytes(&buf)
}

fn hash_consideration_item(item: &ConsiderationItem, type_hash: &[u8; 32]) -> (hash: [u8; 32])
    requires
        *type_hash == keccak256(CONSIDERATION_ITEM_TYPE.spec_bytes()),
    ensures
        hash == consideration_item_hash(*item),
{
    let mut buf: Vec<u8> = Vec::new();
    push_word(&mut buf, type_hash);
    push_u8_word(&mut buf, item.item_type.as_u8());
    push_address_word(&mut buf, &item.token);
    push_word(&mut buf, &item.identifier_or_criteria.bytes);
    push_word(&mut buf, &item.start_amount.bytes);
    push_word(&mut buf, &item.end_amount.bytes);
    push_address_word(&mut buf, &item.recipient);
    assert(buf@ =~= consideration_item_encoding(*item));
    hash_bytes(&buf)
}

fn hash_offer(items: &Vec<OfferItem>) -> (hash: [u8; 32])
    ensures
        hash == keccak256(offer_hashes(items@)),
{
    let type_hash = keccak256_of(OFFER_ITEM_TYPE.as_bytes());
    let mut buf: Vec<u8> = Vec::new();
    let mut i: usize = 0;
    assert(buf@ =~= offer_hashes(items@.take(0)));
    while i < items.len()
        invariant
            i <= items.len(),
            type_hash == keccak256(OFFER_ITEM_TYPE.spec_bytes()),
            buf@ == offer_hashes(items@.take(i as int)),
        decreases items.len() - i,
    {
        let item_hash = hash_offer_item(&items[i], &type_hash);
        push_word(&mut buf, &item_hash);
        proof {
            let done = items@.take(i as int);
            let next = items@.take(i as int + 1);
            assert forall|k: int| 0 <= k < 32 * next.len() implies #[trigger] buf@[k]
                == offer_hashes(next)[k] by {
                if k < 32 * i {
                    assert(buf@[k] == offer_hashes(done)[k]);
                    assert(done[k / 32] == next[k / 32]);
                } else {
                    assert(k / 32 == i as int);
                    assert(k % 32 == k - 32 * i);
                    assert(next[k / 32] == items@[i as int]);
                }
            }
            assert(buf@ =~= offer_hashes(next));
        }
        i = i + 1;
    }
    assert(items@.take(i as int) =~= items@);
    hash_bytes(&buf)
}

fn hash_consideration(items: &Vec<ConsiderationItem>) -> (hash: [u8; 32])
    ensures
        hash == keccak256(consideration_hashes(items@)),
{
    let type_hash = keccak256_of(CONSIDERATION_ITEM_TYPE.as_bytes());
    let mut buf: Vec<u8> = Vec::new();
    let mut i: usize = 0;
    assert(buf@ =~= consideration_hashes(items@.take(0)));
    while i < items.len()
        invariant
            i <= items.len(),
            type_hash == keccak256(CONSIDERATION_ITEM_TYPE.spec_bytes()),
            buf@ == consideration_hashes(items@.take(i as int)),
        decreases items.len() - i,
    {
        let item_hash = hash_consideration_item(&items[i], &type_hash);
        push_word(&mut buf, &item_hash);
        proof {
            let done = items@.take(i as int);
            let next = items@.take(i as int + 1);
            assert forall|k: int| 0 <= k < 32 * next.len() implies #[trigger] buf@[k]
                == consideration_hashes(next)[k] by {
                if k < 32 * i {
                    assert(buf@[k] == consideration_hashes(done)[k]);
                    assert(done[k / 32] == next[k / 32]);
                } else {
                    assert(k / 32 == i as int);
                    assert(k % 32 == k - 32 * i);
                    assert(next[k / 32] == items@[i as int]);
                }
            }
            assert(buf@ =~= consideration_hashes(next));
        }
        i = i + 1;
    }
    assert(items@.take(i as int) =~= items@);
    hash_bytes(&buf)
}

impl OrderComponents {
    /// Hashes the order by itself, under no domain.
    pub fn eip712_hash_struct(&self) -> (hash: B256)
        ensures
            hash.bytes == order_hash(self@),
    {
        let type_hash = order_type_hash();
        let offer_hash = hash_offer(&self.offer);
        let consideration_hash = hash_consideration(&self.consideration);
        let mut buf: Vec<u8> = Vec::new();
        push_word(&mut buf, &type_hash);
        push_address_word(&mut buf, &self.offerer);
        push_address_word(&mut buf, &self.zone);
        push_word(&mut buf, &offer_hash);
        push_word(&mut buf, &consideration_hash);
        push_u8_word(&mut buf, self.order_type.as_u8());
        push_word(&mut buf, &self.start_time.bytes);
        push_word(&mut buf, &self.end_time.bytes);
        push_word(&mut buf, &self.zone_hash.bytes);
        push_word(&mut buf, &self.salt.bytes);
        push_word(&mut buf, &self.conduit_key.bytes);
        push_word(&mut buf, &self.counter.bytes);
        assert(buf@ =~= order_encoding(self@));
        B256 { bytes: hash_bytes(&buf) }
    }

    /// Computes the digest of the order under `domain`; see `digest`.
    pub fn eip712_signing_hash(&self, domain: &DomainDescriptor) -> (hash: Digest32)
        ensures
            hash.bytes == signing_digest(self@, domain@),
    {
        digest(self, domain)
    }
}

impl DomainDescriptor {
    /// Hashes the domain: the value that keeps signatures of one domain from
    /// meaning anything in another.
    pub fn separator(&self) -> (hash: B256)
        ensures
            hash.bytes == domain_separator(self@),
    {
        let type_hash = keccak256_of(DOMAIN_TYPE.as_bytes());
        let name_hash = keccak256_of(self.name.as_str().as_bytes());
        let version_hash = keccak256_of(self.version.as_str().as_bytes());
        let chain_id = U256::from_u64(self.chain_id);
        let mut buf: Vec<u8> = Vec::new();
        push_word(&mut buf, &type_hash);
        push_word(&mut buf, &name_hash);
        push_word(&mut buf, &version_hash);
        push_word(&mut buf, &chain_id.bytes);
        push_address_word(&mut buf, &self.verifying_contract);
        assert(buf@ =~= domain_encoding(self@));
        B256 { bytes: hash_bytes(&buf) }
    }
}

/// Computes the digest that a signer signs for `order` under `domain`.
///
/// The result depends on nothing but the two values: equal orders under
/// equal domains have the same digest, byte for byte.
pub fn digest(order: &OrderComponents, domain: &DomainDescriptor) -> (hash: Digest32)
    ensures
        hash.bytes == signing_digest(order@, domain@),
{
    let separator = domain.separator();
    let struct_hash = order.eip712_hash_struct();
    let mut buf: Vec<u8> = Vec::new();
    buf.push(0x19u8);
    buf.push(0x01u8);
    push_word(&mut buf, &separator.bytes);
    push_word(&mut buf, &struct_hash.bytes);
    assert(buf@ =~= digest_preimage(order@, domain@));
    Digest32 { bytes: hash_bytes(&buf) }
}

} // verus!
