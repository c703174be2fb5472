//! The typed order: what is offered, what is asked in return, and on which
//! terms. Values are plain data; nothing here checks economic sense.

use vstd::prelude::*;
use crate::primitives::{Address, B256, U256};

verus! {

/// How an order may be filled, and by whom.
#[allow(non_camel_case_types)]
#[derive(Clone, Copy, Debug, PartialEq, Eq)]
pub enum OrderType {
    FULL_OPEN,
    PARTIAL_OPEN,
    FULL_RESTRICTED,
    PARTIAL_RESTRICTED,
    CONTRACT,
}

/// The kind of asset that an item names.
#[allow(non_camel_case_types)]
#[derive(Clone, Copy, Debug, PartialEq, Eq)]
pub enum ItemType {
    NATIVE,
    ERC20,
    ERC721,
    ERC1155,
    ERC721_WITH_CRITERIA,
    ERC1155_WITH_CRITERIA,
}

impl OrderType {
    /// The small integer that stands for the variant on the wire and in digests.
    pub open spec fn code(self) -> u8 {
        match self {
            OrderType::FULL_OPEN => 0,
            OrderType::PARTIAL_OPEN => 1,
            OrderType::FULL_RESTRICTED => 2,
            OrderType::PARTIAL_RESTRICTED => 3,
            OrderType::CONTRACT => 4,
        }
    }

    /// The variant's code.
    pub fn as_u8(self) -> (code: u8)
        ensures
            code == self.code(),
    {
        match self {
            OrderType::FULL_OPEN => 0,
            OrderType::PARTIAL_OPEN => 1,
            OrderType::FULL_RESTRICTED => 2,
            OrderType::PARTIAL_RESTRICTED => 3,
            OrderType::CONTRACT => 4,
        }
    }

    /// The variant that `code` stands for, if there is one.
    pub fn from_u8(code: u8) -> (kind: Option<OrderType>)
        ensures
            code <= 4 ==> kind is Some && kind->0.code() == code,
            code > 4 ==> kind is None,
    {
        match code {
            0 => Some(OrderType::FULL_OPEN),
            1 => Some(OrderType::PARTIAL_OPEN),
            2 => Some(OrderType::FULL_RESTRICTED),
            3 => Some(OrderType::PARTIAL_RESTRICTED),
            4 => Some(OrderType::CONTRACT),
            _ => None,
        }
    }
}

impl ItemType {
    /// The small integer that stands for the variant on the wire and in digests.
    pub open spec fn code(self) -> u8 {
        match self {
            ItemType::NATIVE => 0,
            ItemType::ERC20 => 1,
            ItemType::ERC721 => 2,
            ItemType::ERC1155 => 3,
            ItemType::ERC721_WITH_CRITERIA => 4,
            ItemType::ERC1155_WITH_CRITERIA => 5,
        }
    }

    /// The variant's code.
    pub fn as_u8(self) -> (code: u8)
        ensures
            code == self.code(),
    {
        match self {
            ItemType::NATIVE => 0,
            ItemType::ERC20 => 1,
            ItemType::ERC721 => 2,
            ItemType::ERC1155 => 3,
            ItemType::ERC721_WITH_CRITERIA => 4,
            ItemType::ERC1155_WITH_CRITERIA => 5,
        }
    }

    /// The variant that `code` stands for, if there is one.
    pub fn from_u8(code: u8) -> (kind: Option<ItemType>)
        ensures
            code <= 5 ==> kind is Some && kind->0.code() == code,
            code > 5 ==> kind is None,
    {
        match code {
            0 => Some(ItemType::NATIVE),
            1 => Some(ItemType::ERC20),
            2 => Some(ItemType::ERC721),
            3 => Some(ItemType::ERC1155),
            4 => Some(ItemType::ERC721_WITH_CRITERIA),
            5 => Some(ItemType::ERC1155_WITH_CRITERIA),
            _ => None,
        }
    }
}

/// Something the offerer gives. The amount runs from `start_amount` to
/// `end_amount` over the order's time window.
#[derive(Clone, Copy, Debug, PartialEq, Eq)]
pub struct OfferItem {
    pub item_type: ItemType,
    pub token: Address,
    pub identifier_or_criteria: U256,
    pub start_amount: U256,
    pub end_amount: U256,
}

/// Something the offerer asks for, and who is to receive it.
#[derive(Clone, Copy, Debug, PartialEq, Eq)]
pub struct ConsiderationItem {
    pub item_type: ItemType,
    pub token: Address,
    pub identifier_or_criteria: U256,
    pub start_amount: U256,
    pub end_amount: U256,
    pub recipient: Address,
}

/// An order in the form that is hashed and signed. The order of `offer` and
/// of `consideration` is part of the order's identity.
#[derive(Clone, Debug, PartialEq, Eq)]
pub struct OrderComponents {
    pub offerer: Address,
    pub zone: Address,
    pub offer: Vec<OfferItem>,
    pub consideration: Vec<ConsiderationItem>,
    pub order_type: OrderType,
    pub start_time: U256,
    pub end_time: U256,
    pub zone_hash: B256,
    pub salt: U256,
    pub conduit_key: B256,
    pub counter: U256,
}

/// An order as a mathematical value.
pub struct Order {
    pub offerer: Address,
    pub zone: Address,
    pub offer: Seq<OfferItem>,
    pub consideration: Seq<ConsiderationItem>,
    pub order_type: OrderType,
    pub start_time: U256,
    pub end_time: U256,
    pub zone_hash: B256,
    pub salt: U256,
    pub conduit_key: B256,
    pub counter: U256,
}

impl View for OrderComponents {
    type V = Order;

    open spec fn view(&self) -> Order {
        Order {
            offerer: self.offerer,
            zone: self.zone,
            offer: self.offer@,
            consideration: self.consideration@,
            order_type: self.order_type,
            start_time: self.start_time,
            end_time: self.end_time,
            zone_hash: self.zone_hash,
            salt: self.salt,
            conduit_key: self.conduit_key,
            counter: self.counter,
        }
    }
}

impl Order {
    /// The order's window does not end before it starts.
    pub open spec fn well_formed(self) -> bool {
        self.start_time.value() <= self.end_time.value()
    }
}

impl OrderComponents {
    /// Whether the order's window does not end before it starts.
    pub fn is_well_formed(&self) -> (well_formed: bool)
        ensures
            well_formed == self@.well_formed(),
    {
        self.start_time.le(&self.end_time)
    }
}

/// The signing domain: which protocol, which version of it, on which chain,
/// checked by which contract. A signature made under one domain says nothing
/// under another.
#[derive(Clone, Debug, PartialEq, Eq)]
pub struct DomainDescriptor {
    pub name: String,
    pub version: String,
    pub chain_id: u64,
    pub verifying_contract: Address,
}

/// A signing domain as a mathematical value.
pub struct Domain {
    pub name: Seq<char>,
    pub version: Seq<char>,
    pub chain_id: u64,
    pub verifying_contract: Address,
}

impl View for DomainDescriptor {
    type V = Domain;

    open spec fn view(&self) -> Domain {
        Domain {
            name: self.name@,
            version: self.version@,
            chain_id: self.chain_id,
            verifying_contract: self.verifying_contract,
        }
    }
}

/// The protocol's name in its signing domain.
pub const SEAPORT_NAME: &'static str = "Seaport";

/// The protocol version that orders are made for.
pub const CURRENT_SEAPORT_VERSION: &'static str = "1.5";

/// The address of the exchange contract that verifies signatures.
pub open spec fn seaport_address() -> Address {
    Address {
        bytes: [
            0x00u8, 0x00u8, 0x00u8, 0x00u8, 0x00u8, 0x00u8, 0x00u8, 0xadu8, 0xc0u8, 0x4cu8,
            0x56u8, 0xbfu8, 0x30u8, 0xacu8, 0x9du8, 0x3cu8, 0x0au8, 0xafu8, 0x14u8, 0xdcu8,
        ],
    }
}

/// The address of the exchange contract that verifies signatures.
pub fn current_seaport_address() -> (address: Address)
    ensures
        address == seaport_address(),
{
    Address {
        bytes: [
            0x00u8, 0x00u8, 0x00u8, 0x00u8, 0x00u8, 0x00u8, 0x00u8, 0xadu8, 0xc0u8, 0x4cu8,
            0x56u8, 0xbfu8, 0x30u8, 0xacu8, 0x9du8, 0x3cu8, 0x0au8, 0xafu8, 0x14u8, 0xdcu8,
        ],
    }
}

/// The signing domain of the exchange on the chain `chain_id`.
pub open spec fn seaport_domain(chain_id: u64) -> Domain {
    Domain {
        name: SEAPORT_NAME@,
        version: CURRENT_SEAPORT_VERSION@,
        chain_id,
        verifying_contract: seaport_address(),
    }
}

/// Builds the signing domain of the exchange for a chain. Any chain id is
/// accepted.
pub fn resolve_domain(chain_id: u64) -> (domain: DomainDescriptor)
    ensures
        domain@ == seaport_domain(chain_id),
{
    DomainDescriptor {
        name: SEAPORT_NAME.to_owned(),
        version: CURRENT_SEAPORT_VERSION.to_owned(),
        chain_id,
        verifying_contract: current_seaport_address(),
    }
}

} // verus!
