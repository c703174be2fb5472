//! What tells two digests apart.
//!
//! The layout under a digest loses nothing: every field has a fixed place and
//! width, the arrays keep their order, and the domain sits in front. So two
//! different (order, domain) pairs can share a digest only where Keccak-256
//! itself gives two different inputs the same hash. The proofs here say
//! exactly that, naming the inputs on which such a collision would have to
//! occur.

use vstd::prelude::*;
use vstd::string::StringSliceAdditionalSpecFns;
use vstd::utf8::{encode_utf8, encode_utf8_decode_utf8};
use crate::bytes::{be_bytes, lemma_be_bytes_injective, lemma_be_bytes_len, lemma_u128_fits};
use crate::eip712::{
    consideration_hashes, consideration_item_encoding, consideration_item_hash, digest_preimage,
    domain_encoding, domain_separator, offer_hashes, offer_item_encoding, offer_item_hash,
    order_encoding, order_hash, order_type_bytes, signing_digest, u8_word,
    CONSIDERATION_ITEM_TYPE, DOMAIN_TYPE, OFFER_ITEM_TYPE,
};
use crate::keccak::{collides, keccak256};
use crate::primitives::Address;
use crate::seaport::{ConsiderationItem, Domain, OfferItem, Order};

verus! {

/// Keccak-256 collides on the encodings of the offer items at place `i`.
pub open spec fn offer_collides_at(a: Seq<OfferItem>, b: Seq<OfferItem>, i: int) -> bool {
    0 <= i < a.len() && i < b.len() && collides(
        offer_item_encoding(a[i]),
        offer_item_encoding(b[i]),
    )
}

/// Keccak-256 collides on the encodings of the consideration items at place `i`.
pub open spec fn consideration_collides_at(
    a: Seq<ConsiderationItem>,
    b: Seq<ConsiderationItem>,
    i: int,
) -> bool {
    0 <= i < a.len() && i < b.len() && collides(
        consideration_item_encoding(a[i]),
        consideration_item_encoding(b[i]),
    )
}

/// Keccak-256 collides somewhere on the way to the hashes of two orders: on
/// two items in the same place, on the two runs of item hashes, or on the
/// encodings of the orders themselves.
pub open spec fn order_collision(o1: Order, o2: Order) -> bool {
    ||| collides(order_encoding(o1), order_encoding(o2))
    ||| collides(offer_hashes(o1.offer), offer_hashes(o2.offer))
    ||| collides(consideration_hashes(o1.consideration), consideration_hashes(o2.consideration))
    ||| exists|i: int| offer_collides_at(o1.offer, o2.offer, i)
    ||| exists|i: int| consideration_collides_at(o1.consideration, o2.consideration, i)
}

/// Keccak-256 collides somewhere on the way to the hashes of two domains: on
/// their names, their versions, or the encodings of the domains themselves.
pub open spec fn domain_collision(d1: Domain, d2: Domain) -> bool {
    ||| collides(domain_encoding(d1), domain_encoding(d2))
    ||| collides(encode_utf8(d1.name), encode_utf8(d2.name))
    ||| collides(encode_utf8(d1.version), encode_utf8(d2.version))
}

/// Keccak-256 collides somewhere on the way to the digests of two orders
/// under two domains.
pub open spec fn digest_collision(o1: Order, d1: Domain, o2: Order, d2: Domain) -> bool {
    ||| collides(digest_preimage(o1, d1), digest_preimage(o2, d2))
    ||| domain_collision(d1, d2)
    ||| order_collision(o1, o2)
}

/// Equal concatenations with equally long tails have equal heads and tails.
proof fn lemma_split_tail(a: Seq<u8>, b: Seq<u8>, c: Seq<u8>, d: Seq<u8>)
    requires
        a + b == c + d,
        b.len() == d.len(),
    ensures
        a == c,
        b == d,
{
    assert((a + b).len() == a.len() + b.len());
    assert((c + d).len() == c.len() + d.len());
    assert(a.len() == c.len());
    assert forall|i: int| 0 <= i < a.len() implies a[i] == c[i] by {
        assert((a + b)[i] == a[i]);
        assert((c + d)[i] == c[i]);
    }
    assert forall|j: int| 0 <= j < b.len() implies b[j] == d[j] by {
        assert((a + b)[a.len() + j] == b[j]);
        assert((c + d)[c.len() + j] == d[j]);
    }
    assert(a =~= c);
    assert(b =~= d);
}

proof fn lemma_address_word(a: Address, b: Address)
    ensures
        a.word().len() == 32,
        a.word() == b.word() ==> a == b,
{
    if a.word() == b.word() {
        assert forall|i: int| 0 <= i < 20 implies a.bytes[i] == b.bytes[i] by {
            assert(a.word()[12 + i] == a.bytes@[i]);
            assert(b.word()[12 + i] == b.bytes@[i]);
        }
        assert(a.bytes =~= b.bytes);
    }
}

proof fn lemma_u8_word(a: u8, b: u8)
    ensures
        u8_word(a).len() == 32,
        u8_word(a) == u8_word(b) ==> a == b,
{
    if u8_word(a) == u8_word(b) {
        assert(u8_word(a)[31] == a);
        assert(u8_word(b)[31] == b);
    }
}

proof fn lemma_array_eq(a: [u8; 32], b: [u8; 32])
    ensures
        a@.len() == 32,
        a@ == b@ ==> a == b,
{
    if a@ == b@ {
        assert(a =~= b);
    }
}

/// The encoding of an offer item determines the item.
proof fn lemma_offer_item_encoding_injective(a: OfferItem, b: OfferItem)
    requires
        offer_item_encoding(a) == offer_item_encoding(b),
    ensures
        a == b,
{
    let t = keccak256(OFFER_ITEM_TYPE.spec_bytes())@;
    let a1 = t + u8_word(a.item_type.code());
    let b1 = t + u8_word(b.item_type.code());
    let a2 = a1 + a.token.word();
    let b2 = b1 + b.token.word();
    let a3 = a2 + a.identifier_or_criteria.bytes@;
    let b3 = b2 + b.identifier_or_criteria.bytes@;
    let a4 = a3 + a.start_amount.bytes@;
    let b4 = b3 + b.start_amount.bytes@;
    lemma_u8_word(a.item_type.code(), b.item_type.code());
    lemma_address_word(a.token, b.token);
    lemma_array_eq(a.identifier_or_criteria.bytes, b.identifier_or_criteria.bytes);
    lemma_array_eq(a.start_amount.bytes, b.start_amount.bytes);
    lemma_array_eq(a.end_amount.bytes, b.end_amount.bytes);
    lemma_split_tail(a4, a.end_amount.bytes@, b4, b.end_amount.bytes@);
    lemma_split_tail(a3, a.start_amount.bytes@, b3, b.start_amount.bytes@);
    lemma_split_tail(a2, a.identifier_or_criteria.bytes@, b2, b.identifier_or_criteria.bytes@);
    lemma_split_tail(a1, a.token.word(), b1, b.token.word());
    lemma_split_tail(t, u8_word(a.item_type.code()), t, u8_word(b.item_type.code()));
}

/// The encoding of a consideration item determines the item.
proof fn lemma_consideration_item_encoding_injective(a: ConsiderationItem, b: ConsiderationItem)
    requires
        consideration_item_encoding(a) == consideration_item_encoding(b),
    ensures
        a == b,
{
    let t = keccak256(CONSIDERATION_ITEM_TYPE.spec_bytes())@;
    let a1 = t + u8_word(a.item_type.code());
    let b1 = t + u8_word(b.item_type.code());
    let a2 = a1 + a.token.word();
    let b2 = b1 + b.token.word();
    let a3 = a2 + a.identifier_or_criteria.bytes@;
    let b3 = b2 + b.identifier_or_criteria.bytes@;
    let a4 = a3 + a.start_amount.bytes@;
    let b4 = b3 + b.start_amount.bytes@;
    let a5 = a4 + a.end_amount.bytes@;
    let b5 = b4 + b.end_amount.bytes@;
    lemma_u8_word(a.item_type.code(), b.item_type.code());
    lemma_address_word(a.token, b.token);
    lemma_address_word(a.recipient, b.recipient);
    lemma_array_eq(a.identifier_or_criteria.bytes, b.identifier_or_criteria.bytes);
    lemma_array_eq(a.start_amount.bytes, b.start_amount.bytes);
    lemma_array_eq(a.end_amount.bytes, b.end_amount.bytes);
    lemma_split_tail(a5, a.recipient.word(), b5, b.recipient.word());
    lemma_split_tail(a4, a.end_amount.bytes@, b4, b.end_amount.bytes@);
    lemma_split_tail(a3, a.start_amount.bytes@, b3, b.start_amount.bytes@);
    lemma_split_tail(a2, a.identifier_or_criteria.bytes@, b2, b.identifier_or_criteria.bytes@);
    lemma_split_tail(a1, a.token.word(), b1, b.token.word());
    lemma_split_tail(t, u8_word(a.item_type.code()), t, u8_word(b.item_type.code()));
}

/// Equal runs of offer hashes come from equally many items with equal hashes.
proof fn lemma_offer_hashes_split(a: Seq<OfferItem>, b: Seq<OfferItem>)
    requires
        offer_hashes(a) == offer_hashes(b),
    ensures
        a.len() == b.len(),
        forall|i: int| 0 <= i < a.len() ==> offer_item_hash(#[trigger] a[i]) == offer_item_hash(b[i]),
{
    assert(offer_hashes(a).len() == 32 * a.len());
    assert(offer_hashes(b).len() == 32 * b.len());
    assert forall|i: int| 0 <= i < a.len() implies offer_item_hash(#[trigger] a[i])
        == offer_item_hash(b[i]) by {
        let x = offer_item_hash(a[i]);
        let y = offer_item_hash(b[i]);
        assert forall|j: int| 0 <= j < 32 implies x[j] == y[j] by {
            let k = 32 * i + j;
            assert(k / 32 == i && k % 32 == j);
            assert(offer_hashes(a)[k] == x@[j]);
            assert(offer_hashes(b)[k] == y@[j]);
        }
        assert(x =~= y);
    }
}

/// Equal runs of consideration hashes come from equally many items with
/// equal hashes.
proof fn lemma_consideration_hashes_split(a: Seq<ConsiderationItem>, b: Seq<ConsiderationItem>)
    requires
        consideration_hashes(a) == consideration_hashes(b),
    ensures
        a.len() == b.len(),
        forall|i: int|
            0 <= i < a.len() ==> consideration_item_hash(#[trigger] a[i])
                == consideration_item_hash(b[i]),
{
    assert(consideration_hashes(a).len() == 32 * a.len());
    assert(consideration_hashes(b).len() == 32 * b.len());
    assert forall|i: int| 0 <= i < a.len() implies consideration_item_hash(#[trigger] a[i])
        == consideration_item_hash(b[i]) by {
        let x = consideration_item_hash(a[i]);
        let y = consideration_item_hash(b[i]);
        assert forall|j: int| 0 <= j < 32 implies x[j] == y[j] by {
            let k = 32 * i + j;
            assert(k / 32 == i && k % 32 == j);
            assert(consideration_hashes(a)[k] == x@[j]);
            assert(consideration_hashes(b)[k] == y@[j]);
        }
        assert(x =~= y);
    }
}

/// Offers with the same hash are the same offers, item for item, unless
/// Keccak-256 collides on the way.
proof fn lemma_offer_determined(a: Seq<OfferItem>, b: Seq<OfferItem>)
    requires
        keccak256(offer_hashes(a)) == keccak256(offer_hashes(b)),
        !collides(offer_hashes(a), offer_hashes(b)),
        forall|i: int| !offer_collides_at(a, b, i),
    ensures
        a == b,
{
    lemma_offer_hashes_split(a, b);
    assert forall|i: int| 0 <= i < a.len() implies a[i] == b[i] by {
        assert(!offer_collides_at(a, b, i));
        assert(offer_item_hash(a[i]) == offer_item_hash(b[i]));
        lemma_offer_item_encoding_injective(a[i], b[i]);
    }
    assert(a =~= b);
}

/// Considerations with the same hash are the same, item for item, unless
/// Keccak-256 collides on the way.
proof fn lemma_consideration_determined(a: Seq<ConsiderationItem>, b: Seq<ConsiderationItem>)
    requires
        keccak256(consideration_hashes(a)) == keccak256(consideration_hashes(b)),
        !collides(consideration_hashes(a), consideration_hashes(b)),
        forall|i: int| !consideration_collides_at(a, b, i),
    ensures
        a == b,
{
    lemma_consideration_hashes_split(a, b);
    assert forall|i: int| 0 <= i < a.len() implies a[i] == b[i] by {
        assert(!consideration_collides_at(a, b, i));
        assert(consideration_item_hash(a[i]) == consideration_item_hash(b[i]));
        lemma_consideration_item_encoding_injective(a[i], b[i]);
    }
    assert(a =~= b);
}

/// Orders with the same hash are the same order, unless Keccak-256 collides
/// on the way.
proof fn lemma_order_determined(o1: Order, o2: Order)
    requires
        order_hash(o1) == order_hash(o2),
        !order_collision(o1, o2),
    ensures
        o1 == o2,
{
    let t = keccak256(order_type_bytes())@;
    let oh1 = keccak256(offer_hashes(o1.offer));
    let oh2 = keccak256(offer_hashes(o2.offer));
    let ch1 = keccak256(consideration_hashes(o1.consideration));
    let ch2 = keccak256(consideration_hashes(o2.consideration));
    let a1 = t + o1.offerer.word();
    let b1 = t + o2.offerer.word();
    let a2 = a1 + o1.zone.word();
    let b2 = b1 + o2.zone.word();
    let a3 = a2 + oh1@;
    let b3 = b2 + oh2@;
    let a4 = a3 + ch1@;
    let b4 = b3 + ch2@;
    let a5 = a4 + u8_word(o1.order_type.code());
    let b5 = b4 + u8_word(o2.order_type.code());
    let a6 = a5 + o1.start_time.bytes@;
    let b6 = b5 + o2.start_time.bytes@;
    let a7 = a6 + o1.end_time.bytes@;
    let b7 = b6 + o2.end_time.bytes@;
    let a8 = a7 + o1.zone_hash.bytes@;
    let b8 = b7 + o2.zone_hash.bytes@;
    let a9 = a8 + o1.salt.bytes@;
    let b9 = b8 + o2.salt.bytes@;
    let a10 = a9 + o1.conduit_key.bytes@;
    let b10 = b9 + o2.conduit_key.bytes@;
    assert(order_encoding(o1) == a10 + o1.counter.bytes@);
    assert(order_encoding(o2) == b10 + o2.counter.bytes@);
    assert(order_encoding(o1) == order_encoding(o2));
    lemma_address_word(o1.offerer, o2.offerer);
    lemma_address_word(o1.zone, o2.zone);
    lemma_u8_word(o1.order_type.code(), o2.order_type.code());
    lemma_array_eq(oh1, oh2);
    lemma_array_eq(ch1, ch2);
    lemma_array_eq(o1.start_time.bytes, o2.start_time.bytes);
    lemma_array_eq(o1.end_time.bytes, o2.end_time.bytes);
    lemma_array_eq(o1.zone_hash.bytes, o2.zone_hash.bytes);
    lemma_array_eq(o1.salt.bytes, o2.salt.bytes);
    lemma_array_eq(o1.conduit_key.bytes, o2.conduit_key.bytes);
    lemma_array_eq(o1.counter.bytes, o2.counter.bytes);
    lemma_split_tail(a10, o1.counter.bytes@, b10, o2.counter.bytes@);
    lemma_split_tail(a9, o1.conduit_key.bytes@, b9, o2.conduit_key.bytes@);
    lemma_split_tail(a8, o1.salt.bytes@, b8, o2.salt.bytes@);
    lemma_split_tail(a7, o1.zone_hash.bytes@, b7, o2.zone_hash.bytes@);
    lemma_split_tail(a6, o1.end_time.bytes@, b6, o2.end_time.bytes@);
    lemma_split_tail(a5, o1.start_time.bytes@, b5, o2.start_time.bytes@);
    lemma_split_tail(a4, u8_word(o1.order_type.code()), b4, u8_word(o2.order_type.code()));
    lemma_split_tail(a3, ch1@, b3, ch2@);
    lemma_split_tail(a2, oh1@, b2, oh2@);
    lemma_split_tail(a1, o1.zone.word(), b1, o2.zone.word());
    lemma_split_tail(t, o1.offerer.word(), t, o2.offerer.word());
    assert forall|i: int| !offer_collides_at(o1.offer, o2.offer, i) by {}
    assert forall|i: int| !consideration_collides_at(o1.consideration, o2.consideration, i) by {}
    lemma_offer_determined(o1.offer, o2.offer);
    lemma_consideration_determined(o1.consideration, o2.consideration);
}

/// Domains with the same hash are the same domain, unless Keccak-256
/// collides on the way.
proof fn lemma_domain_determined(d1: Domain, d2: Domain)
    requires
        domain_separator(d1) == domain_separator(d2),
        !domain_collision(d1, d2),
    ensures
        d1 == d2,
{
    lemma_domain_encoding_injective(d1, d2);
}

/// Domains with the same encoding are the same domain, unless Keccak-256
/// collides on their names or versions.
proof fn lemma_domain_encoding_injective(d1: Domain, d2: Domain)
    requires
        domain_encoding(d1) == domain_encoding(d2),
        !collides(encode_utf8(d1.name), encode_utf8(d2.name)),
        !collides(encode_utf8(d1.version), encode_utf8(d2.version)),
    ensures
        d1 == d2,
{
    lemma_domain_parts(d1, d2);
    encode_utf8_decode_utf8(d1.name);
    encode_utf8_decode_utf8(d2.name);
    encode_utf8_decode_utf8(d1.version);
    encode_utf8_decode_utf8(d2.version);
}

/// Domains with the same encoding have the same chain id and contract, and
/// names and versions with the same hashes.
proof fn lemma_domain_parts(d1: Domain, d2: Domain)
    requires
        domain_encoding(d1) == domain_encoding(d2),
    ensures
        d1.chain_id == d2.chain_id,
        d1.verifying_contract == d2.verifying_contract,
        keccak256(encode_utf8(d1.name)) == keccak256(encode_utf8(d2.name)),
        keccak256(encode_utf8(d1.version)) == keccak256(encode_utf8(d2.version)),
{
    let t = keccak256(DOMAIN_TYPE.spec_bytes())@;
    let n1 = keccak256(encode_utf8(d1.name));
    let n2 = keccak256(encode_utf8(d2.name));
    let v1 = keccak256(encode_utf8(d1.version));
    let v2 = keccak256(encode_utf8(d2.version));
    let c1 = be_bytes(d1.chain_id as nat, 32);
    let c2 = be_bytes(d2.chain_id as nat, 32);
    let a1 = t + n1@;
    let b1 = t + n2@;
    let a2 = a1 + v1@;
    let b2 = b1 + v2@;
    let a3 = a2 + c1;
    let b3 = b2 + c2;
    lemma_address_word(d1.verifying_contract, d2.verifying_contract);
    lemma_be_bytes_len(d1.chain_id as nat, 32);
    lemma_be_bytes_len(d2.chain_id as nat, 32);
    lemma_array_eq(n1, n2);
    lemma_array_eq(v1, v2);
    lemma_split_tail(a3, d1.verifying_contract.word(), b3, d2.verifying_contract.word());
    lemma_split_tail(a2, c1, b2, c2);
    lemma_split_tail(a1, v1@, b1, v2@);
    lemma_split_tail(t, n1@, t, n2@);
    lemma_u128_fits(d1.chain_id as u128);
    lemma_u128_fits(d2.chain_id as u128);
    lemma_be_bytes_injective(d1.chain_id as nat, d2.chain_id as nat, 32);
}

/// Equal last inputs hold the same domain hash and the same order hash.
proof fn lemma_preimage_parts(o1: Order, d1: Domain, o2: Order, d2: Domain)
    requires
        digest_preimage(o1, d1) == digest_preimage(o2, d2),
    ensures
        domain_separator(d1) == domain_separator(d2),
        order_hash(o1) == order_hash(o2),
{
    let head = seq![0x19u8, 0x01u8];
    lemma_array_eq(domain_separator(d1), domain_separator(d2));
    lemma_array_eq(order_hash(o1), order_hash(o2));
    lemma_split_tail(
        head + domain_separator(d1)@,
        order_hash(o1)@,
        head + domain_separator(d2)@,
        order_hash(o2)@,
    );
    lemma_split_tail(head, domain_separator(d1)@, head, domain_separator(d2)@);
}

/// A digest stands for one order under one domain: two pairs with the same
/// digest are the same pair, unless Keccak-256 gives two different inputs the
/// same hash at one of the places that `digest_collision` names.
pub proof fn digest_determines_order_and_domain(o1: Order, d1: Domain, o2: Order, d2: Domain)
    requires
        signing_digest(o1, d1) == signing_digest(o2, d2),
        !digest_collision(o1, d1, o2, d2),
    ensures
        o1 == o2,
        d1 == d2,
{
    lemma_preimage_parts(o1, d1, o2, d2);
    lemma_domain_determined(d1, d2);
    lemma_order_determined(o1, o2);
}

/// The digest is a function of the order and the domain as values: equal
/// orders under equal domains have the same digest.
pub proof fn digest_is_deterministic(o1: Order, d1: Domain, o2: Order, d2: Domain)
    requires
        o1 == o2,
        d1 == d2,
    ensures
        signing_digest(o1, d1) == signing_digest(o2, d2),
{
}

/// Domain separation: under domains with different chain ids one order has
/// different digests, unless Keccak-256 collides on the two domains'
/// encodings or on the two last inputs.
pub proof fn chain_id_separates_digests(order: Order, d1: Domain, d2: Domain)
    requires
        d1.chain_id != d2.chain_id,
    ensures
        signing_digest(order, d1) != signing_digest(order, d2) || collides(
            domain_encoding(d1),
            domain_encoding(d2),
        ) || collides(digest_preimage(order, d1), digest_preimage(order, d2)),
{
    if domain_encoding(d1) == domain_encoding(d2) {
        lemma_domain_parts(d1, d2);
    }
    if digest_preimage(order, d1) == digest_preimage(order, d2) {
        lemma_preimage_parts(order, d1, order, d2);
    }
}

/// Two orders that differ only in the order of their offer or consideration
/// items have different digests under one domain, unless Keccak-256 collides
/// on the way to the two order hashes or on the two last inputs.
pub proof fn item_order_changes_digest(o1: Order, o2: Order, domain: Domain)
    requires
        o1 != o2,
        o1.offer.to_multiset() == o2.offer.to_multiset(),
        o1.consideration.to_multiset() == o2.consideration.to_multiset(),
        o1.offerer == o2.offerer,
        o1.zone == o2.zone,
        o1.order_type == o2.order_type,
        o1.start_time == o2.start_time,
        o1.end_time == o2.end_time,
        o1.zone_hash == o2.zone_hash,
        o1.salt == o2.salt,
        o1.conduit_key == o2.conduit_key,
        o1.counter == o2.counter,
    ensures
        signing_digest(o1, domain) != signing_digest(o2, domain) || order_collision(o1, o2)
            || collides(digest_preimage(o1, domain), digest_preimage(o2, domain)),
{
    different_orders_have_different_digests(o1, o2, domain);
}

/// Any two different orders have different digests under one domain, unless
/// Keccak-256 collides on the way to the two order hashes or on the two last
/// inputs.
pub proof fn different_orders_have_different_digests(o1: Order, o2: Order, domain: Domain)
    requires
        o1 != o2,
    ensures
        signing_digest(o1, domain) != signing_digest(o2, domain) || order_collision(o1, o2)
            || collides(digest_preimage(o1, domain), digest_preimage(o2, domain)),
{
    if signing_digest(o1, domain) == signing_digest(o2, domain) && !order_collision(o1, o2)
        && !collides(digest_preimage(o1, domain), digest_preimage(o2, domain)) {
        lemma_preimage_parts(o1, domain, o2, domain);
        lemma_order_determined(o1, o2);
    }
}

} // verus!
