//! The closed set of event records, and the structured decode failures.
//!
//! Every variant embeds the base `timestamp`; numeric fields are non-negative
//! magnitudes. Fractional percentages (the `Reputation` fields) are held as
//! the decimal text of the JSON number. An optional field that is absent from
//! the input is `None`, which is distinct from a present zero or empty value.

use vstd::prelude::*;
use crate::time::Timestamp;

verus! {

/// The kind of value a field was expected to hold.
#[derive(Debug, Clone, Copy, PartialEq, Eq, Structural)]
pub enum FieldKind {
    /// A JSON string.
    Text,
    /// A non-negative JSON integer.
    Unsigned,
    /// Any JSON number.
    Number,
    /// A JSON array of strings.
    TextList,
    /// An RFC 3339 date-time string.
    DateTime,
}

/// Why one line failed to decode.
#[derive(Debug, Clone, PartialEq, Eq)]
pub enum DecodeError {
    /// The line is not a JSON object.
    MalformedJson,
    /// The object has no `event` discriminator.
    MissingTag,
    /// A required field is absent; carries the field name.
    MissingField(String),
    /// A field holds the wrong kind of value; carries the field name and the
    /// kind that was expected.
    TypeMismatch(String, FieldKind),
}

/// The mathematical form of a `DecodeError`.
pub enum SpecDecodeError {
    MalformedJson,
    MissingTag,
    MissingField(Seq<char>),
    TypeMismatch(Seq<char>, FieldKind),
}

impl View for DecodeError {
    type V = SpecDecodeError;

    open spec fn view(&self) -> SpecDecodeError {
        match self {
            DecodeError::MalformedJson => SpecDecodeError::MalformedJson,
            DecodeError::MissingTag => SpecDecodeError::MissingTag,
            DecodeError::MissingField(n) => SpecDecodeError::MissingField(n@),
            DecodeError::TypeMismatch(n, k) => SpecDecodeError::TypeMismatch(n@, *k),
        }
    }
}

impl DeepView for DecodeError {
    type V = SpecDecodeError;

    open spec fn deep_view(&self) -> SpecDecodeError {
        self.view()
    }
}

/// One decoded journal record: a closed, tagged union discriminated by the
/// line's `event` field. A tag outside the catalog decodes to `Unknown`.
#[derive(Debug, Clone, PartialEq)]
pub enum Event {
    Commander { timestamp: Timestamp, name: String },
    Progress {
        timestamp: Timestamp,
        combat: u8,
        trade: u8,
        explore: u8,
        soldier: u8,
        exobiologist: u8,
        empire: u8,
        federation: u8,
    },
    Reputation {
        timestamp: Timestamp,
        empire: String,
        federation: String,
        independent: String,
        alliance: String,
    },
    Powerplay { timestamp: Timestamp, rank: u16, merits: u64 },
    PowerplayMerits { timestamp: Timestamp, power: String, merits_gained: u16, total_merits: u64 },
    Bounty { timestamp: Timestamp, total_reward: u64, victim_faction: Option<String> },
    FactionKillBond { timestamp: Timestamp, reward: u64, awarding_faction: String },
    CodexEntry { timestamp: Timestamp, voucher_amount: Option<u64> },
    DatalinkVoucher { timestamp: Timestamp, reward: u64, payee_faction: String },
    RedeemVoucher { timestamp: Timestamp, amount: u64, factions: Vec<String>, faction: String },
    MissionCompleted { timestamp: Timestamp, donated: Option<u64>, reward: Option<u64> },
    SearchAndRescue { timestamp: Timestamp, reward: u64 },
    MultiSellExplorationData { timestamp: Timestamp, total_earnings: u64 },
    ModuleSell { timestamp: Timestamp, sell_price: u64 },
    ModuleSellRemote { timestamp: Timestamp, sell_price: u64 },
    MarketSell { timestamp: Timestamp, target: String },
    SellDrones { timestamp: Timestamp, sell_price: u64, total_sale: u64 },
    ShipyardSell { timestamp: Timestamp, ship_price: u64 },
    ShipyardBuy { timestamp: Timestamp, ship_price: u64 },
    ModuleBuy { timestamp: Timestamp, buy_price: u64 },
    BuyDrones { timestamp: Timestamp, buy_price: u64 },
    MarketBuy { timestamp: Timestamp, target: String },
    BuyWeapon { timestamp: Timestamp, price: u64 },
    RefuelAll { timestamp: Timestamp, cost: u64 },
    RepairAll { timestamp: Timestamp, cost: u64 },
    Repair { timestamp: Timestamp, cost: u64 },
    BuyAmmo { timestamp: Timestamp, cost: u64 },
    NpcCrewPaidWage { timestamp: Timestamp, amount: u64 },
    PayFines { timestamp: Timestamp, amount: u64 },
    PayBounties { timestamp: Timestamp, amount: u64 },
    SelfDestruct { timestamp: Timestamp },
    Resurrect { timestamp: Timestamp, cost: u64 },
    RestockVehicle { timestamp: Timestamp, cost: u64 },
    Died { timestamp: Timestamp },
    Unknown { timestamp: Timestamp },
}

/// The mathematical form of an `Event`: text as character sequences.
pub enum SpecEvent {
    Commander { timestamp: Timestamp, name: Seq<char> },
    Progress {
        timestamp: Timestamp,
        combat: u8,
        trade: u8,
        explore: u8,
        soldier: u8,
        exobiologist: u8,
        empire: u8,
        federation: u8,
    },
    Reputation {
        timestamp: Timestamp,
        empire: Seq<char>,
        federation: Seq<char>,
        independent: Seq<char>,
        alliance: Seq<char>,
    },
    Powerplay { timestamp: Timestamp, rank: u16, merits: u64 },
    PowerplayMerits {
        timestamp: Timestamp,
        power: Seq<char>,
        merits_gained: u16,
        total_merits: u64,
    },
    Bounty { timestamp: Timestamp, total_reward: u64, victim_faction: Option<Seq<char>> },
    FactionKillBond { timestamp: Timestamp, reward: u64, awarding_faction: Seq<char> },
    CodexEntry { timestamp: Timestamp, voucher_amount: Option<u64> },
    DatalinkVoucher { timestamp: Timestamp, reward: u64, payee_faction: Seq<char> },
    RedeemVoucher {
        timestamp: Timestamp,
        amount: u64,
        factions: Seq<Seq<char>>,
        faction: Seq<char>,
    },
    MissionCompleted { timestamp: Timestamp, donated: Option<u64>, reward: Option<u64> },
    SearchAndRescue { timestamp: Timestamp, reward: u64 },
    MultiSellExplorationData { timestamp: Timestamp, total_earnings: u64 },
    ModuleSell { timestamp: Timestamp, sell_price: u64 },
    ModuleSellRemote { timestamp: Timestamp, sell_price: u64 },
    MarketSell { timestamp: Timestamp, target: Seq<char> },
    SellDrones { timestamp: Timestamp, sell_price: u64, total_sale: u64 },
    ShipyardSell { timestamp: Timestamp, ship_price: u64 },
    ShipyardBuy { timestamp: Timestamp, ship_price: u64 },
    ModuleBuy { timestamp: Timestamp, buy_price: u64 },
    BuyDrones { timestamp: Timestamp, buy_price: u64 },
    MarketBuy { timestamp: Timestamp, target: Seq<char> },
    BuyWeapon { timestamp: Timestamp, price: u64 },
    RefuelAll { timestamp: Timestamp, cost: u64 },
    RepairAll { timestamp: Timestamp, cost: u64 },
    Repair { timestamp: Timestamp, cost: u64 },
    BuyAmmo { timestamp: Timestamp, cost: u64 },
    NpcCrewPaidWage { timestamp: Timestamp, amount: u64 },
    PayFines { timestamp: Timestamp, amount: u64 },
    PayBounties { timestamp: Timestamp, amount: u64 },
    SelfDestruct { timestamp: Timestamp },
    Resurrect { timestamp: Timestamp, cost: u64 },
    RestockVehicle { timestamp: Timestamp, cost: u64 },
    Died { timestamp: Timestamp },
    Unknown { timestamp: Timestamp },
}

/// The view of an optional text field.
pub open spec fn opt_text_view(o: Option<String>) -> Option<Seq<char>> {
    match o {
        Some(s) => Some(s@),
        None => None,
    }
}

impl View for Event {
    type V = SpecEvent;

    open spec fn view(&self) -> SpecEvent {
        match self {
            Event::Commander { timestamp, name } => SpecEvent::Commander {
                timestamp: *timestamp,
                name: name@,
            },
            Event::Progress {
                timestamp,
                combat,
                trade,
                explore,
                soldier,
                exobiologist,
                empire,
                federation,
            } => SpecEvent::Progress {
                timestamp: *timestamp,
                combat: *combat,
                trade: *trade,
                explore: *explore,
                soldier: *soldier,
                exobiologist: *exobiologist,
                empire: *empire,
                federation: *federation,
            },
            Event::Reputation { timestamp, empire, federation, independent, alliance } => {
                SpecEvent::Reputation {
                    timestamp: *timestamp,
                    empire: empire@,
                    federation: federation@,
                    independent: independent@,
                    alliance: alliance@,
                }
            },
            Event::Powerplay { timestamp, rank, merits } => SpecEvent::Powerplay {
                timestamp: *timestamp,
                rank: *rank,
                merits: *merits,
            },
            Event::PowerplayMerits { timestamp, power, merits_gained, total_merits } => {
                SpecEvent::PowerplayMerits {
                    timestamp: *timestamp,
                    power: power@,
                    merits_gained: *merits_gained,
                    total_merits: *total_merits,
                }
            },
            Event::Bounty { timestamp, total_reward, victim_faction } => SpecEvent::Bounty {
                timestamp: *timestamp,
                total_reward: *total_reward,
                victim_faction: opt_text_view(*victim_faction),
            },
            Event::FactionKillBond { timestamp, reward, awarding_faction } => {
                SpecEvent::FactionKillBond {
                    timestamp: *timestamp,
                    reward: *reward,
                    awarding_faction: awarding_faction@,
                }
            },
            Event::CodexEntry { timestamp, voucher_amount } => SpecEvent::CodexEntry {
                timestamp: *timestamp,
                voucher_amount: *voucher_amount,
            },
            Event::DatalinkVoucher { timestamp, reward, payee_faction } => {
                SpecEvent::DatalinkVoucher {
                    timestamp: *timestamp,
                    reward: *reward,
                    payee_faction: payee_faction@,
                }
            },
            Event::RedeemVoucher { timestamp, amount, factions, faction } => {
                SpecEvent::RedeemVoucher {
                    timestamp: *timestamp,
                    amount: *amount,
                    factions: factions.deep_view(),
                    faction: faction@,
                }
            },
            Event::MissionCompleted { timestamp, donated, reward } => {
                SpecEvent::MissionCompleted {
                    timestamp: *timestamp,
                    donated: *donated,
                    reward: *reward,
                }
            },
            Event::SearchAndRescue { timestamp, reward } => SpecEvent::SearchAndRescue {
                timestamp: *timestamp,
                reward: *reward,
            },
            Event::MultiSellExplorationData { timestamp, total_earnings } => {
                SpecEvent::MultiSellExplorationData {
                    timestamp: *timestamp,
                    total_earnings: *total_earnings,
                }
            },
            Event::ModuleSell { timestamp, sell_price } => SpecEvent::ModuleSell {
                timestamp: *timestamp,
                sell_price: *sell_price,
            },
            Event::ModuleSellRemote { timestamp, sell_price } => SpecEvent::ModuleSellRemote {
                timestamp: *timestamp,
                sell_price: *sell_price,
            },
            Event::MarketSell { timestamp, target } => SpecEvent::MarketSell {
                timestamp: *timestamp,
                target: target@,
            },
            Event::SellDrones { timestamp, sell_price, total_sale } => SpecEvent::SellDrones {
                timestamp: *timestamp,
                sell_price: *sell_price,
                total_sale: *total_sale,
            },
            Event::ShipyardSell { timestamp, ship_price } => SpecEvent::ShipyardSell {
                timestamp: *timestamp,
                ship_price: *ship_price,
            },
            Event::ShipyardBuy { timestamp, ship_price } => SpecEvent::ShipyardBuy {
                timestamp: *timestamp,
                ship_price: *ship_price,
            },
            Event::ModuleBuy { timestamp, buy_price } => SpecEvent::ModuleBuy {
                timestamp: *timestamp,
                buy_price: *buy_price,
            },
            Event::BuyDrones { timestamp, buy_price } => SpecEvent::BuyDrones {
                timestamp: *timestamp,
                buy_price: *buy_price,
            },
            Event::MarketBuy { timestamp, target } => SpecEvent::MarketBuy {
                timestamp: *timestamp,
                target: target@,
            },
            Event::BuyWeapon { timestamp, price } => SpecEvent::BuyWeapon {
                timestamp: *timestamp,
                price: *price,
            },
            Event::RefuelAll { timestamp, cost } => SpecEvent::RefuelAll {
                timestamp: *timestamp,
                cost: *cost,
            },
            Event::RepairAll { timestamp, cost } => SpecEvent::RepairAll {
                timestamp: *timestamp,
                cost: *cost,
            },
            Event::Repair { timestamp, cost } => SpecEvent::Repair {
                timestamp: *timestamp,
                cost: *cost,
            },
            Event::BuyAmmo { timestamp, cost } => SpecEvent::BuyAmmo {
                timestamp: *timestamp,
                cost: *cost,
            },
            Event::NpcCrewPaidWage { timestamp, amount } => SpecEvent::NpcCrewPaidWage {
                timestamp: *timestamp,
                amount: *amount,
            },
            Event::PayFines { timestamp, amount } => SpecEvent::PayFines {
                timestamp: *timestamp,
                amount: *amount,
            },
            Event::PayBounties { timestamp, amount } => SpecEvent::PayBounties {
                timestamp: *timestamp,
                amount: *amount,
            },
            Event::SelfDestruct { timestamp } => SpecEvent::SelfDestruct {
                timestamp: *timestamp,
            },
            Event::Resurrect { timestamp, cost } => SpecEvent::Resurrect {
                timestamp: *timestamp,
                cost: *cost,
            },
            Event::RestockVehicle { timestamp, cost } => SpecEvent::RestockVehicle {
                timestamp: *timestamp,
                cost: *cost,
            },
            Event::Died { timestamp } => SpecEvent::Died { timestamp: *timestamp },
            Event::Unknown { timestamp } => SpecEvent::Unknown { timestamp: *timestamp },
        }
    }
}

impl DeepView for Event {
    type V = SpecEvent;

    open spec fn deep_view(&self) -> SpecEvent {
        self.view()
    }
}

impl Event {
    /// The timestamp embedded in every variant.
    pub open spec fn spec_timestamp(&self) -> Timestamp {
        self.view().timestamp()
    }

    /// Returns the timestamp embedded in the record.
    pub fn timestamp(&self) -> (t: Timestamp)
        ensures
            t == self.spec_timestamp(),
    {
        match self {
            Event::Commander { timestamp, .. } => *timestamp,
            Event::Progress { timestamp, .. } => *timestamp,
            Event::Reputation { timestamp, .. } => *timestamp,
            Event::Powerplay { timestamp, .. } => *timestamp,
            Event::PowerplayMerits { timestamp, .. } => *timestamp,
            Event::Bounty { timestamp, .. } => *timestamp,
            Event::FactionKillBond { timestamp, .. } => *timestamp,
            Event::CodexEntry { timestamp, .. } => *timestamp,
            Event::DatalinkVoucher { timestamp, .. } => *timestamp,
            Event::RedeemVoucher { timestamp, .. } => *timestamp,
            Event::MissionCompleted { timestamp, .. } => *timestamp,
            Event::SearchAndRescue { timestamp, .. } => *timestamp,
            Event::MultiSellExplorationData { timestamp, .. } => *timestamp,
            Event::ModuleSell { timestamp, .. } => *timestamp,
            Event::ModuleSellRemote { timestamp, .. } => *timestamp,
            Event::MarketSell { timestamp, .. } => *timestamp,
            Event::SellDrones { timestamp, .. } => *timestamp,
            Event::ShipyardSell { timestamp, .. } => *timestamp,
            Event::ShipyardBuy { timestamp, .. } => *timestamp,
            Event::ModuleBuy { timestamp, .. } => *timestamp,
            Event::BuyDrones { timestamp, .. } => *timestamp,
            Event::MarketBuy { timestamp, .. } => *timestamp,
            Event::BuyWeapon { timestamp, .. } => *timestamp,
            Event::RefuelAll { timestamp, .. } => *timestamp,
            Event::RepairAll { timestamp, .. } => *timestamp,
            Event::Repair { timestamp, .. } => *timestamp,
            Event::BuyAmmo { timestamp, .. } => *timestamp,
            Event::NpcCrewPaidWage { timestamp, .. } => *timestamp,
            Event::PayFines { timestamp, .. } => *timestamp,
            Event::PayBounties { timestamp, .. } => *timestamp,
            Event::SelfDestruct { timestamp, .. } => *timestamp,
            Event::Resurrect { timestamp, .. } => *timestamp,
            Event::RestockVehicle { timestamp, .. } => *timestamp,
            Event::Died { timestamp, .. } => *timestamp,
            Event::Unknown { timestamp, .. } => *timestamp,
        }
    }
}

impl SpecEvent {
    /// The timestamp embedded in every variant.
    pub open spec fn timestamp(&self) -> Timestamp {
        match self {
            SpecEvent::Commander { timestamp, .. } => *timestamp,
            SpecEvent::Progress { timestamp, .. } => *timestamp,
            SpecEvent::Reputation { timestamp, .. } => *timestamp,
            SpecEvent::Powerplay { timestamp, .. } => *timestamp,
            SpecEvent::PowerplayMerits { timestamp, .. } => *timestamp,
            SpecEvent::Bounty { timestamp, .. } => *timestamp,
            SpecEvent::FactionKillBond { timestamp, .. } => *timestamp,
            SpecEvent::CodexEntry { timestamp, .. } => *timestamp,
            SpecEvent::DatalinkVoucher { timestamp, .. } => *timestamp,
            SpecEvent::RedeemVoucher { timestamp, .. } => *timestamp,
            SpecEvent::MissionCompleted { timestamp, .. } => *timestamp,
            SpecEvent::SearchAndRescue { timestamp, .. } => *timestamp,
            SpecEvent::MultiSellExplorationData { timestamp, .. } => *timestamp,
            SpecEvent::ModuleSell { timestamp, .. } => *timestamp,
            SpecEvent::ModuleSellRemote { timestamp, .. } => *timestamp,
            SpecEvent::MarketSell { timestamp, .. } => *timestamp,
            SpecEvent::SellDrones { timestamp, .. } => *timestamp,
            SpecEvent::ShipyardSell { timestamp, .. } => *timestamp,
            SpecEvent::ShipyardBuy { timestamp, .. } => *timestamp,
            SpecEvent::ModuleBuy { timestamp, .. } => *timestamp,
            SpecEvent::BuyDrones { timestamp, .. } => *timestamp,
            SpecEvent::MarketBuy { timestamp, .. } => *timestamp,
            SpecEvent::BuyWeapon { timestamp, .. } => *timestamp,
            SpecEvent::RefuelAll { timestamp, .. } => *timestamp,
            SpecEvent::RepairAll { timestamp, .. } => *timestamp,
            SpecEvent::Repair { timestamp, .. } => *timestamp,
            SpecEvent::BuyAmmo { timestamp, .. } => *timestamp,
            SpecEvent::NpcCrewPaidWage { timestamp, .. } => *timestamp,
            SpecEvent::PayFines { timestamp, .. } => *timestamp,
            SpecEvent::PayBounties { timestamp, .. } => *timestamp,
            SpecEvent::SelfDestruct { timestamp, .. } => *timestamp,
            SpecEvent::Resurrect { timestamp, .. } => *timestamp,
            SpecEvent::RestockVehicle { timestamp, .. } => *timestamp,
            SpecEvent::Died { timestamp, .. } => *timestamp,
            SpecEvent::Unknown { timestamp, .. } => *timestamp,
        }
    }
}

} // verus!
