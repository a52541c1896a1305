//! The decoder: one JSON object (one journal line) becomes exactly one
//! `Event`, or a structured failure.
//!
//! The rule is stated once, as `spec_decode` over the object model; the
//! executable decoder is verified to match it exactly. A tag outside the
//! catalog decodes to `Unknown` — never a failure — but the base timestamp is
//! required on every record, whatever the tag.

use vstd::prelude::*;
use crate::events::DecodeError;
use crate::events::Event;
use crate::events::FieldKind;
use crate::events::SpecDecodeError;
use crate::events::SpecEvent;
use crate::fields::jfield;
use crate::fields::obj_fields;
use crate::fields::opt_text;
use crate::fields::opt_u64;
use crate::fields::req_num_text;
use crate::fields::req_text;
use crate::fields::req_text_alias;
use crate::fields::req_text_list;
use crate::fields::req_u16;
use crate::fields::req_u64;
use crate::fields::req_u8;
use crate::fields::spec_opt_text;
use crate::fields::spec_opt_u64;
use crate::fields::spec_req_num_text;
use crate::fields::spec_req_text;
use crate::fields::spec_req_text_alias;
use crate::fields::spec_req_text_list;
use crate::fields::spec_req_u16;
use crate::fields::spec_req_u64;
use crate::fields::spec_req_u8;
use crate::fields::spec_timestamp_field;
use crate::fields::timestamp_field;
use crate::json::JsonModel;
use crate::json::json_model;
use crate::json::json_of;
use crate::json::obj_get;
use crate::json::parse_json;
use crate::json::str_eq;
use crate::json::val_as_str;
use crate::json::val_is_object;
use crate::time::Timestamp;

verus! {

/// Whether a tag is in the catalog; any other tag decodes to `Unknown`.
pub open spec fn spec_known_tag(tag: Seq<char>) -> bool {
    ||| tag == "Commander"@
    ||| tag == "Progress"@
    ||| tag == "Reputation"@
    ||| tag == "Powerplay"@
    ||| tag == "PowerplayMerits"@
    ||| tag == "Bounty"@
    ||| tag == "FactionKillBond"@
    ||| tag == "CodexEntry"@
    ||| tag == "DatalinkVoucher"@
    ||| tag == "RedeemVoucher"@
    ||| tag == "MissionCompleted"@
    ||| tag == "SearchAndRescue"@
    ||| tag == "MultiSellExplorationData"@
    ||| tag == "ModuleSell"@
    ||| tag == "ModuleSellRemote"@
    ||| tag == "MarketSell"@
    ||| tag == "SellDrones"@
    ||| tag == "ShipyardSell"@
    ||| tag == "ShipyardBuy"@
    ||| tag == "ModuleBuy"@
    ||| tag == "BuyDrones"@
    ||| tag == "MarketBuy"@
    ||| tag == "BuyWeapon"@
    ||| tag == "RefuelAll"@
    ||| tag == "RepairAll"@
    ||| tag == "Repair"@
    ||| tag == "BuyAmmo"@
    ||| tag == "NpcCrewPaidWage"@
    ||| tag == "PayFines"@
    ||| tag == "PayBounties"@
    ||| tag == "SelfDestruct"@
    ||| tag == "Resurrect"@
    ||| tag == "RestockVehicle"@
    ||| tag == "Died"@
}

/// The variant a recognized (or unrecognized) tag selects, given the base
/// timestamp `ts`. Fields are resolved in catalog order; the first failure is
/// the record's failure.
pub open spec fn spec_decode_variant(
    m: Map<Seq<char>, JsonModel>,
    tag: Seq<char>,
    ts: Timestamp,
) -> Result<SpecEvent, SpecDecodeError> {
    if tag == "Commander"@ {
        match spec_req_text(m, "name"@) {
            Ok(name) => Ok(SpecEvent::Commander { timestamp: ts, name }),
            Err(e) => Err(e),
        }
    } else if tag == "Progress"@ {
        match spec_req_u8(m, "combat"@) {
            Err(e) => Err(e),
            Ok(combat) => match spec_req_u8(m, "trade"@) {
                Err(e) => Err(e),
                Ok(trade) => match spec_req_u8(m, "explore"@) {
                    Err(e) => Err(e),
                    Ok(explore) => match spec_req_u8(m, "soldier"@) {
                        Err(e) => Err(e),
                        Ok(soldier) => match spec_req_u8(m, "exobiologist"@) {
                            Err(e) => Err(e),
                            Ok(exobiologist) => match spec_req_u8(m, "empire"@) {
                                Err(e) => Err(e),
                                Ok(empire) => match spec_req_u8(m, "federation"@) {
                                    Err(e) => Err(e),
                                    Ok(federation) => Ok(
                                        SpecEvent::Progress {
                                            timestamp: ts,
                                            combat,
                                            trade,
                                            explore,
                                            soldier,
                                            exobiologist,
                                            empire,
                                            federation,
                                        },
                                    ),
                                },
                            },
                        },
                    },
                },
            },
        }
    } else if tag == "Reputation"@ {
        match spec_req_num_text(m, "empire"@) {
            Err(e) => Err(e),
            Ok(empire) => match spec_req_num_text(m, "federation"@) {
                Err(e) => Err(e),
                Ok(federation) => match spec_req_num_text(m, "independent"@) {
                    Err(e) => Err(e),
                    Ok(independent) => match spec_req_num_text(m, "alliance"@) {
                        Err(e) => Err(e),
                        Ok(alliance) => Ok(
                            SpecEvent::Reputation {
                                timestamp: ts,
                                empire,
                                federation,
                                independent,
                                alliance,
                            },
                        ),
                    },
                },
            },
        }
    } else if tag == "Powerplay"@ {
        match spec_req_u16(m, "rank"@) {
            Err(e) => Err(e),
            Ok(rank) => match spec_req_u64(m, "merits"@) {
                Err(e) => Err(e),
                Ok(merits) => Ok(SpecEvent::Powerplay { timestamp: ts, rank, merits }),
            },
        }
    } else if tag == "PowerplayMerits"@ {
        match spec_req_text(m, "power"@) {
            Err(e) => Err(e),
            Ok(power) => match spec_req_u16(m, "merits_gained"@) {
                Err(e) => Err(e),
                Ok(merits_gained) => match spec_req_u64(m, "total_merits"@) {
                    Err(e) => Err(e),
                    Ok(total_merits) => Ok(
                        SpecEvent::PowerplayMerits { timestamp: ts, power, merits_gained, total_merits },
                    ),
                },
            },
        }
    } else if tag == "Bounty"@ {
        match spec_req_u64(m, "total_reward"@) {
            Err(e) => Err(e),
            Ok(total_reward) => match spec_opt_text(m, "victim_faction"@) {
                Err(e) => Err(e),
                Ok(victim_faction) => Ok(
                    SpecEvent::Bounty { timestamp: ts, total_reward, victim_faction },
                ),
            },
        }
    } else if tag == "FactionKillBond"@ {
        match spec_req_u64(m, "reward"@) {
            Err(e) => Err(e),
            Ok(reward) => match spec_req_text(m, "awarding_faction"@) {
                Err(e) => Err(e),
                Ok(awarding_faction) => Ok(
                    SpecEvent::FactionKillBond { timestamp: ts, reward, awarding_faction },
                ),
            },
        }
    } else if tag == "CodexEntry"@ {
        match spec_opt_u64(m, "voucher_amount"@) {
            Err(e) => Err(e),
            Ok(voucher_amount) => Ok(SpecEvent::CodexEntry { timestamp: ts, voucher_amount }),
        }
    } else if tag == "DatalinkVoucher"@ {
        match spec_req_u64(m, "reward"@) {
            Err(e) => Err(e),
            Ok(reward) => match spec_req_text(m, "payee_faction"@) {
                Err(e) => Err(e),
                Ok(payee_faction) => Ok(
                    SpecEvent::DatalinkVoucher { timestamp: ts, reward, payee_faction },
                ),
            },
        }
    } else if tag == "RedeemVoucher"@ {
        match spec_req_u64(m, "amount"@) {
            Err(e) => Err(e),
            Ok(amount) => match spec_req_text_list(m, "factions"@) {
                Err(e) => Err(e),
                Ok(factions) => match spec_req_text(m, "faction"@) {
                    Err(e) => Err(e),
                    Ok(faction) => Ok(
                        SpecEvent::RedeemVoucher { timestamp: ts, amount, factions, faction },
                    ),
                },
            },
        }
    } else if tag == "MissionCompleted"@ {
        match spec_opt_u64(m, "donated"@) {
            Err(e) => Err(e),
            Ok(donated) => match spec_opt_u64(m, "reward"@) {
                Err(e) => Err(e),
                Ok(reward) => Ok(SpecEvent::MissionCompleted { timestamp: ts, donated, reward }),
            },
        }
    } else if tag == "SearchAndRescue"@ {
        match spec_req_u64(m, "reward"@) {
            Err(e) => Err(e),
            Ok(reward) => Ok(SpecEvent::SearchAndRescue { timestamp: ts, reward }),
        }
    } else if tag == "MultiSellExplorationData"@ {
        match spec_req_u64(m, "total_earnings"@) {
            Err(e) => Err(e),
            Ok(total_earnings) => Ok(
                SpecEvent::MultiSellExplorationData { timestamp: ts, total_earnings },
            ),
        }
    } else if tag == "ModuleSell"@ {
        match spec_req_u64(m, "sell_price"@) {
            Err(e) => Err(e),
            Ok(sell_price) => Ok(SpecEvent::ModuleSell { timestamp: ts, sell_price }),
        }
    } else if tag == "ModuleSellRemote"@ {
        match spec_req_u64(m, "sell_price"@) {
            Err(e) => Err(e),
            Ok(sell_price) => Ok(SpecEvent::ModuleSellRemote { timestamp: ts, sell_price }),
        }
    } else if tag == "MarketSell"@ {
        match spec_req_text_alias(m, "type"@, "Type"@) {
            Err(e) => Err(e),
            Ok(target) => Ok(SpecEvent::MarketSell { timestamp: ts, target }),
        }
    } else if tag == "SellDrones"@ {
        match spec_req_u64(m, "sell_price"@) {
            Err(e) => Err(e),
            Ok(sell_price) => match spec_req_u64(m, "total_sale"@) {
                Err(e) => Err(e),
                Ok(total_sale) => Ok(SpecEvent::SellDrones { timestamp: ts, sell_price, total_sale }),
            },
        }
    } else if tag == "ShipyardSell"@ {
        match spec_req_u64(m, "ship_price"@) {
            Err(e) => Err(e),
            Ok(ship_price) => Ok(SpecEvent::ShipyardSell { timestamp: ts, ship_price }),
        }
    } else if tag == "ShipyardBuy"@ {
        match spec_req_u64(m, "ship_price"@) {
            Err(e) => Err(e),
            Ok(ship_price) => Ok(SpecEvent::ShipyardBuy { timestamp: ts, ship_price }),
        }
    } else if tag == "ModuleBuy"@ {
        match spec_req_u64(m, "buy_price"@) {
            Err(e) => Err(e),
            Ok(buy_price) => Ok(SpecEvent::ModuleBuy { timestamp: ts, buy_price }),
        }
    } else if tag == "BuyDrones"@ {
        match spec_req_u64(m, "buy_price"@) {
            Err(e) => Err(e),
            Ok(buy_price) => Ok(SpecEvent::BuyDrones { timestamp: ts, buy_price }),
        }
    } else if tag == "MarketBuy"@ {
        match spec_req_text_alias(m, "type"@, "Type"@) {
            Err(e) => Err(e),
            Ok(target) => Ok(SpecEvent::MarketBuy { timestamp: ts, target }),
        }
    } else if tag == "BuyWeapon"@ {
        match spec_req_u64(m, "price"@) {
            Err(e) => Err(e),
            Ok(price) => Ok(SpecEvent::BuyWeapon { timestamp: ts, price }),
        }
    } else if tag == "RefuelAll"@ {
        match spec_req_u64(m, "cost"@) {
            Err(e) => Err(e),
            Ok(cost) => Ok(SpecEvent::RefuelAll { timestamp: ts, cost }),
        }
    } else if tag == "RepairAll"@ {
        match spec_req_u64(m, "cost"@) {
            Err(e) => Err(e),
            Ok(cost) => Ok(SpecEvent::RepairAll { timestamp: ts, cost }),
        }
    } else if tag == "Repair"@ {
        match spec_req_u64(m, "cost"@) {
            Err(e) => Err(e),
            Ok(cost) => Ok(SpecEvent::Repair { timestamp: ts, cost }),
        }
    } else if tag == "BuyAmmo"@ {
        match spec_req_u64(m, "cost"@) {
            Err(e) => Err(e),
            Ok(cost) => Ok(SpecEvent::BuyAmmo { timestamp: ts, cost }),
        }
    } else if tag == "NpcCrewPaidWage"@ {
        match spec_req_u64(m, "amount"@) {
            Err(e) => Err(e),
            Ok(amount) => Ok(SpecEvent::NpcCrewPaidWage { timestamp: ts, amount }),
        }
    } else if tag == "PayFines"@ {
        match spec_req_u64(m, "amount"@) {
            Err(e) => Err(e),
            Ok(amount) => Ok(SpecEvent::PayFines { timestamp: ts, amount }),
        }
    } else if tag == "PayBounties"@ {
        match spec_req_u64(m, "amount"@) {
            Err(e) => Err(e),
            Ok(amount) => Ok(SpecEvent::PayBounties { timestamp: ts, amount }),
        }
    } else if tag == "SelfDestruct"@ {
        Ok(SpecEvent::SelfDestruct { timestamp: ts })
    } else if tag == "Resurrect"@ {
        match spec_req_u64(m, "cost"@) {
            Err(e) => Err(e),
            Ok(cost) => Ok(SpecEvent::Resurrect { timestamp: ts, cost }),
        }
    } else if tag == "RestockVehicle"@ {
        match spec_req_u64(m, "cost"@) {
            Err(e) => Err(e),
            Ok(cost) => Ok(SpecEvent::RestockVehicle { timestamp: ts, cost }),
        }
    } else if tag == "Died"@ {
        Ok(SpecEvent::Died { timestamp: ts })
    } else {
        Ok(SpecEvent::Unknown { timestamp: ts })
    }
}

/// What decoding one JSON object yields: the tag is read first (its absence
/// is `MissingTag`), then the base timestamp (required on every record), then
/// the variant's own fields.
pub open spec fn spec_decode(m: Map<Seq<char>, JsonModel>) -> Result<SpecEvent, SpecDecodeError> {
    match jfield(m, "event"@) {
        None => Err(SpecDecodeError::MissingTag),
        Some(JsonModel::Str(tag)) => match spec_timestamp_field(m) {
            Err(e) => Err(e),
            Ok(ts) => spec_decode_variant(m, tag, ts),
        },
        Some(_) => Err(SpecDecodeError::TypeMismatch("event"@, FieldKind::Text)),
    }
}

/// What decoding one JSON value yields: a value that is not an object is
/// `MalformedJson`.
pub open spec fn spec_decode_value(jm: JsonModel) -> Result<SpecEvent, SpecDecodeError> {
    match jm {
        JsonModel::Obj(m) => spec_decode(m),
        _ => Err(SpecDecodeError::MalformedJson),
    }
}

/// What decoding one raw line yields: text that is not valid JSON is
/// `MalformedJson`.
pub open spec fn spec_decode_line(s: Seq<char>) -> Result<SpecEvent, SpecDecodeError> {
    match json_of(s) {
        None => Err(SpecDecodeError::MalformedJson),
        Some(jm) => spec_decode_value(jm),
    }
}

/// The catalog tag that names a record's variant; `Unknown` carries the
/// out-of-catalog fallback's conventional name.
pub open spec fn spec_tag_of(e: SpecEvent) -> Seq<char> {
    match e {
        SpecEvent::Commander { .. } => "Commander"@,
        SpecEvent::Progress { .. } => "Progress"@,
        SpecEvent::Reputation { .. } => "Reputation"@,
        SpecEvent::Powerplay { .. } => "Powerplay"@,
        SpecEvent::PowerplayMerits { .. } => "PowerplayMerits"@,
        SpecEvent::Bounty { .. } => "Bounty"@,
        SpecEvent::FactionKillBond { .. } => "FactionKillBond"@,
        SpecEvent::CodexEntry { .. } => "CodexEntry"@,
        SpecEvent::DatalinkVoucher { .. } => "DatalinkVoucher"@,
        SpecEvent::RedeemVoucher { .. } => "RedeemVoucher"@,
        SpecEvent::MissionCompleted { .. } => "MissionCompleted"@,
        SpecEvent::SearchAndRescue { .. } => "SearchAndRescue"@,
        SpecEvent::MultiSellExplorationData { .. } => "MultiSellExplorationData"@,
        SpecEvent::ModuleSell { .. } => "ModuleSell"@,
        SpecEvent::ModuleSellRemote { .. } => "ModuleSellRemote"@,
        SpecEvent::MarketSell { .. } => "MarketSell"@,
        SpecEvent::SellDrones { .. } => "SellDrones"@,
        SpecEvent::ShipyardSell { .. } => "ShipyardSell"@,
        SpecEvent::ShipyardBuy { .. } => "ShipyardBuy"@,
        SpecEvent::ModuleBuy { .. } => "ModuleBuy"@,
        SpecEvent::BuyDrones { .. } => "BuyDrones"@,
        SpecEvent::MarketBuy { .. } => "MarketBuy"@,
        SpecEvent::BuyWeapon { .. } => "BuyWeapon"@,
        SpecEvent::RefuelAll { .. } => "RefuelAll"@,
        SpecEvent::RepairAll { .. } => "RepairAll"@,
        SpecEvent::Repair { .. } => "Repair"@,
        SpecEvent::BuyAmmo { .. } => "BuyAmmo"@,
        SpecEvent::NpcCrewPaidWage { .. } => "NpcCrewPaidWage"@,
        SpecEvent::PayFines { .. } => "PayFines"@,
        SpecEvent::PayBounties { .. } => "PayBounties"@,
        SpecEvent::SelfDestruct { .. } => "SelfDestruct"@,
        SpecEvent::Resurrect { .. } => "Resurrect"@,
        SpecEvent::RestockVehicle { .. } => "RestockVehicle"@,
        SpecEvent::Died { .. } => "Died"@,
        SpecEvent::Unknown { .. } => "Unknown"@,
    }
}

/// The tag selects the variant: a record decoded from an object whose tag is
/// in the catalog carries that tag's variant, and any other tag yields
/// `Unknown`. Either way the record's timestamp is the object's base
/// timestamp.
pub proof fn lemma_tag_selects_variant(m: Map<Seq<char>, JsonModel>, tag: Seq<char>, e: SpecEvent)
    requires
        jfield(m, "event"@) == Some(JsonModel::Str(tag)),
        spec_decode(m) == Ok::<SpecEvent, SpecDecodeError>(e),
    ensures
        spec_known_tag(tag) ==> spec_tag_of(e) == tag,
        !spec_known_tag(tag) ==> e is Unknown,
        spec_timestamp_field(m) == Ok::<Timestamp, SpecDecodeError>(e.timestamp()),
{
}

/// Facts that tell the catalog tags apart: each tag's length, and a
/// distinguishing character for the pairs of equal length.
proof fn lemma_tag_facts()
    ensures
        "Commander"@.len() == 9,
        "Progress"@.len() == 8,
        "Reputation"@.len() == 10,
        "Powerplay"@.len() == 9,
        "PowerplayMerits"@.len() == 15,
        "Bounty"@.len() == 6,
        "FactionKillBond"@.len() == 15,
        "CodexEntry"@.len() == 10,
        "DatalinkVoucher"@.len() == 15,
        "RedeemVoucher"@.len() == 13,
        "MissionCompleted"@.len() == 16,
        "SearchAndRescue"@.len() == 15,
        "MultiSellExplorationData"@.len() == 24,
        "ModuleSell"@.len() == 10,
        "ModuleSellRemote"@.len() == 16,
        "MarketSell"@.len() == 10,
        "SellDrones"@.len() == 10,
        "ShipyardSell"@.len() == 12,
        "ShipyardBuy"@.len() == 11,
        "ModuleBuy"@.len() == 9,
        "BuyDrones"@.len() == 9,
        "MarketBuy"@.len() == 9,
        "Commander"@[0] == 'C',
        "Powerplay"@[0] == 'P',
        "Reputation"@[0] == 'R',
        "CodexEntry"@[0] == 'C',
        "SellDrones"@[0] == 'S',
        "BuyDrones"@[0] == 'B',
        "MarketSell"@[0] == 'M',
        "MarketBuy"@[0] == 'M',
        "ModuleSell"@[1] == 'o',
        "ModuleBuy"@[1] == 'o',
        "MarketSell"@[1] == 'a',
        "MarketBuy"@[1] == 'a',
{
    reveal_strlit("Commander");
    reveal_strlit("Progress");
    reveal_strlit("Reputation");
    reveal_strlit("Powerplay");
    reveal_strlit("PowerplayMerits");
    reveal_strlit("Bounty");
    reveal_strlit("FactionKillBond");
    reveal_strlit("CodexEntry");
    reveal_strlit("DatalinkVoucher");
    reveal_strlit("RedeemVoucher");
    reveal_strlit("MissionCompleted");
    reveal_strlit("SearchAndRescue");
    reveal_strlit("MultiSellExplorationData");
    reveal_strlit("ModuleSell");
    reveal_strlit("ModuleSellRemote");
    reveal_strlit("MarketSell");
    reveal_strlit("SellDrones");
    reveal_strlit("ShipyardSell");
    reveal_strlit("ShipyardBuy");
    reveal_strlit("ModuleBuy");
    reveal_strlit("BuyDrones");
    reveal_strlit("MarketBuy");
}

/// Unknown-tag tolerance: an object whose tag is outside the catalog decodes
/// to `Unknown` — never an error — provided its base timestamp is
/// well-formed.
pub proof fn lemma_unknown_tag_tolerance(
    m: Map<Seq<char>, JsonModel>,
    tag: Seq<char>,
    ts: Timestamp,
)
    requires
        jfield(m, "event"@) == Some(JsonModel::Str(tag)),
        !spec_known_tag(tag),
        spec_timestamp_field(m) == Ok::<Timestamp, SpecDecodeError>(ts),
    ensures
        spec_decode(m) == Ok::<SpecEvent, SpecDecodeError>(SpecEvent::Unknown { timestamp: ts }),
{
}

/// Alias equivalence: a MarketSell or MarketBuy object whose target stands
/// under `"type"` decodes identically to the same object with the field
/// spelled `"Type"`.
pub proof fn lemma_alias_equivalence(
    m1: Map<Seq<char>, JsonModel>,
    m2: Map<Seq<char>, JsonModel>,
    tag: Seq<char>,
    target: Seq<char>,
)
    requires
        tag == "MarketSell"@ || tag == "MarketBuy"@,
        jfield(m1, "event"@) == Some(JsonModel::Str(tag)),
        jfield(m2, "event"@) == Some(JsonModel::Str(tag)),
        spec_timestamp_field(m1) == spec_timestamp_field(m2),
        m1.contains_key("type"@),
        !m1.contains_key("Type"@),
        m1["type"@] == JsonModel::Str(target),
        m2.contains_key("Type"@),
        !m2.contains_key("type"@),
        m2["Type"@] == JsonModel::Str(target),
    ensures
        spec_decode(m1) == spec_decode(m2),
{
    lemma_tag_facts();
}

/// Optional-field distinction: a Bounty object without `"victim_faction"`
/// decodes with the field absent, and one that spells it out — as the empty
/// string included — decodes with the field present, so the two records are
/// distinguishable.
pub proof fn lemma_bounty_optional_distinction(
    m: Map<Seq<char>, JsonModel>,
    ts: Timestamp,
    reward: u64,
)
    requires
        jfield(m, "event"@) == Some(JsonModel::Str("Bounty"@)),
        spec_timestamp_field(m) == Ok::<Timestamp, SpecDecodeError>(ts),
        spec_req_u64(m, "total_reward"@) == Ok::<u64, SpecDecodeError>(reward),
    ensures
        !m.contains_key("victim_faction"@) ==> spec_decode(m) == Ok::<
            SpecEvent,
            SpecDecodeError,
        >(SpecEvent::Bounty { timestamp: ts, total_reward: reward, victim_faction: None }),
        forall|s: Seq<char>|
            m.contains_key("victim_faction"@) && m["victim_faction"@] == JsonModel::Str(s)
                ==> spec_decode(m) == Ok::<SpecEvent, SpecDecodeError>(
                SpecEvent::Bounty { timestamp: ts, total_reward: reward, victim_faction: Some(s) },
            ),
{
    lemma_tag_facts();
}

/// Decodes one JSON object, known to be an object.
#[verifier::rlimit(60)]
fn decode_obj(v: &serde_json::Value) -> (r: Result<Event, DecodeError>)
    requires
        json_model(*v) is Obj,
    ensures
        match r {
            Ok(e) => spec_decode(obj_fields(*v)) == Ok::<SpecEvent, SpecDecodeError>(e@),
            Err(er) => spec_decode(obj_fields(*v)) == Err::<SpecEvent, SpecDecodeError>(er@),
        },
{
    let tag = match obj_get(v, "event") {
        Some(f) => match val_as_str(f) {
            Some(s) => s,
            None => {
                return Err(DecodeError::TypeMismatch("event".to_owned(), FieldKind::Text));
            },
        },
        None => {
            return Err(DecodeError::MissingTag);
        },
    };
    let ts = match timestamp_field(v) {
        Ok(t) => t,
        Err(e) => {
            return Err(e);
        },
    };
    if str_eq(tag, "Commander") {
        match req_text(v, "name") {
            Ok(name) => Ok(Event::Commander { timestamp: ts, name }),
            Err(e) => Err(e),
        }
    } else if str_eq(tag, "Progress") {
        let combat = match req_u8(v, "combat") {
            Ok(x) => x,
            Err(e) => {
                return Err(e);
            },
        };
        let trade = match req_u8(v, "trade") {
            Ok(x) => x,
            Err(e) => {
                return Err(e);
            },
        };
        let explore = match req_u8(v, "explore") {
            Ok(x) => x,
            Err(e) => {
                return Err(e);
            },
        };
        let soldier = match req_u8(v, "soldier") {
            Ok(x) => x,
            Err(e) => {
                return Err(e);
            },
        };
        let exobiologist = match req_u8(v, "exobiologist") {
            Ok(x) => x,
            Err(e) => {
                return Err(e);
            },
        };
        let empire = match req_u8(v, "empire") {
            Ok(x) => x,
            Err(e) => {
                return Err(e);
            },
        };
        let federation = match req_u8(v, "federation") {
            Ok(x) => x,
            Err(e) => {
                return Err(e);
            },
        };
        Ok(
            Event::Progress {
                timestamp: ts,
                combat,
                trade,
                explore,
                soldier,
                exobiologist,
                empire,
                federation,
            },
        )
    } else if str_eq(tag, "Reputation") {
        let empire = match req_num_text(v, "empire") {
            Ok(x) => x,
            Err(e) => {
                return Err(e);
            },
        };
        let federation = match req_num_text(v, "federation") {
            Ok(x) => x,
            Err(e) => {
                return Err(e);
            },
        };
        let independent = match req_num_text(v, "independent") {
            Ok(x) => x,
            Err(e) => {
                return Err(e);
            },
        };
        let alliance = match req_num_text(v, "alliance") {
            Ok(x) => x,
            Err(e) => {
                return Err(e);
            },
        };
        Ok(Event::Reputation { timestamp: ts, empire, federation, independent, alliance })
    } else if str_eq(tag, "Powerplay") {
        let rank = match req_u16(v, "rank") {
            Ok(x) => x,
            Err(e) => {
                return Err(e);
            },
        };
        let merits = match req_u64(v, "merits") {
            Ok(x) => x,
            Err(e) => {
                return Err(e);
            },
        };
        Ok(Event::Powerplay { timestamp: ts, rank, merits })
    } else if str_eq(tag, "PowerplayMerits") {
        let power = match req_text(v, "power") {
            Ok(x) => x,
            Err(e) => {
                return Err(e);
            },
        };
        let merits_gained = match req_u16(v, "merits_gained") {
            Ok(x) => x,
            Err(e) => {
                return Err(e);
            },
        };
        let total_merits = match req_u64(v, "total_merits") {
            Ok(x) => x,
            Err(e) => {
                return Err(e);
            },
        };
        Ok(Event::PowerplayMerits { timestamp: ts, power, merits_gained, total_merits })
    } else if str_eq(tag, "Bounty") {
        let total_reward = match req_u64(v, "total_reward") {
            Ok(x) => x,
            Err(e) => {
                return Err(e);
            },
        };
        let victim_faction = match opt_text(v, "victim_faction") {
            Ok(x) => x,
            Err(e) => {
                return Err(e);
            },
        };
        Ok(Event::Bounty { timestamp: ts, total_reward, victim_faction })
    } else if str_eq(tag, "FactionKillBond") {
        let reward = match req_u64(v, "reward") {
            Ok(x) => x,
            Err(e) => {
                return Err(e);
            },
        };
        let awarding_faction = match req_text(v, "awarding_faction") {
            Ok(x) => x,
            Err(e) => {
                return Err(e);
            },
        };
        Ok(Event::FactionKillBond { timestamp: ts, reward, awarding_faction })
    } else if str_eq(tag, "CodexEntry") {
        match opt_u64(v, "voucher_amount") {
            Ok(voucher_amount) => Ok(Event::CodexEntry { timestamp: ts, voucher_amount }),
            Err(e) => Err(e),
        }
    } else if str_eq(tag, "DatalinkVoucher") {
        let reward = match req_u64(v, "reward") {
            Ok(x) => x,
            Err(e) => {
                return Err(e);
            },
        };
        let payee_faction = match req_text(v, "payee_faction") {
            Ok(x) => x,
            Err(e) => {
                return Err(e);
            },
        };
        Ok(Event::DatalinkVoucher { timestamp: ts, reward, payee_faction })
    } else if str_eq(tag, "RedeemVoucher") {
        let amount = match req_u64(v, "amount") {
            Ok(x) => x,
            Err(e) => {
                return Err(e);
            },
        };
        let factions = match req_text_list(v, "factions") {
            Ok(x) => x,
            Err(e) => {
                return Err(e);
            },
        };
        let faction = match req_text(v, "faction") {
            Ok(x) => x,
            Err(e) => {
                return Err(e);
            },
        };
        Ok(Event::RedeemVoucher { timestamp: ts, amount, factions, faction })
    } else if str_eq(tag, "MissionCompleted") {
        let donated = match opt_u64(v, "donated") {
            Ok(x) => x,
            Err(e) => {
                return Err(e);
            },
        };
        let reward = match opt_u64(v, "reward") {
            Ok(x) => x,
            Err(e) => {
                return Err(e);
            },
        };
        Ok(Event::MissionCompleted { timestamp: ts, donated, reward })
    } else if str_eq(tag, "SearchAndRescue") {
        match req_u64(v, "reward") {
            Ok(reward) => Ok(Event::SearchAndRescue { timestamp: ts, reward }),
            Err(e) => Err(e),
        }
    } else if str_eq(tag, "MultiSellExplorationData") {
        match req_u64(v, "total_earnings") {
            Ok(total_earnings) => Ok(
                Event::MultiSellExplorationData { timestamp: ts, total_earnings },
            ),
            Err(e) => Err(e),
        }
    } else if str_eq(tag, "ModuleSell") {
        match req_u64(v, "sell_price") {
            Ok(sell_price) => Ok(Event::ModuleSell { timestamp: ts, sell_price }),
            Err(e) => Err(e),
        }
    } else if str_eq(tag, "ModuleSellRemote") {
        match req_u64(v, "sell_price") {
            Ok(sell_price) => Ok(Event::ModuleSellRemote { timestamp: ts, sell_price }),
            Err(e) => Err(e),
        }
    } else if str_eq(tag, "MarketSell") {
        match req_text_alias(v, "type", "Type") {
            Ok(target) => Ok(Event::MarketSell { timestamp: ts, target }),
            Err(e) => Err(e),
        }
    } else if str_eq(tag, "SellDrones") {
        let sell_price = match req_u64(v, "sell_price") {
            Ok(x) => x,
            Err(e) => {
                return Err(e);
            },
        };
        let total_sale = match req_u64(v, "total_sale") {
            Ok(x) => x,
            Err(e) => {
                return Err(e);
            },
        };
        Ok(Event::SellDrones { timestamp: ts, sell_price, total_sale })
    } else if str_eq(tag, "ShipyardSell") {
        match req_u64(v, "ship_price") {
            Ok(ship_price) => Ok(Event::ShipyardSell { timestamp: ts, ship_price }),
            Err(e) => Err(e),
        }
    } else if str_eq(tag, "ShipyardBuy") {
        match req_u64(v, "ship_price") {
            Ok(ship_price) => Ok(Event::ShipyardBuy { timestamp: ts, ship_price }),
            Err(e) => Err(e),
        }
    } else if str_eq(tag, "ModuleBuy") {
        match req_u64(v, "buy_price") {
            Ok(buy_price) => Ok(Event::ModuleBuy { timestamp: ts, buy_price }),
            Err(e) => Err(e),
        }
    } else if str_eq(tag, "BuyDrones") {
        match req_u64(v, "buy_price") {
            Ok(buy_price) => Ok(Event::BuyDrones { timestamp: ts, buy_price }),
            Err(e) => Err(e),
        }
    } else if str_eq(tag, "MarketBuy") {
        match req_text_alias(v, "type", "Type") {
            Ok(target) => Ok(Event::MarketBuy { timestamp: ts, target }),
            Err(e) => Err(e),
        }
    } else if str_eq(tag, "BuyWeapon") {
        match req_u64(v, "price") {
            Ok(price) => Ok(Event::BuyWeapon { timestamp: ts, price }),
            Err(e) => Err(e),
        }
    } else if str_eq(tag, "RefuelAll") {
        match req_u64(v, "cost") {
            Ok(cost) => Ok(Event::RefuelAll { timestamp: ts, cost }),
            Err(e) => Err(e),
        }
    } else if str_eq(tag, "RepairAll") {
        match req_u64(v, "cost") {
            Ok(cost) => Ok(Event::RepairAll { timestamp: ts, cost }),
            Err(e) => Err(e),
        }
    } else if str_eq(tag, "Repair") {
        match req_u64(v, "cost") {
            Ok(cost) => Ok(Event::Repair { timestamp: ts, cost }),
            Err(e) => Err(e),
        }
    } else if str_eq(tag, "BuyAmmo") {
        match req_u64(v, "cost") {
            Ok(cost) => Ok(Event::BuyAmmo { timestamp: ts, cost }),
            Err(e) => Err(e),
        }
    } else if str_eq(tag, "NpcCrewPaidWage") {
        match req_u64(v, "amount") {
            Ok(amount) => Ok(Event::NpcCrewPaidWage { timestamp: ts, amount }),
            Err(e) => Err(e),
        }
    } else if str_eq(tag, "PayFines") {
        match req_u64(v, "amount") {
            Ok(amount) => Ok(Event::PayFines { timestamp: ts, amount }),
            Err(e) => Err(e),
        }
    } else if str_eq(tag, "PayBounties") {
        match req_u64(v, "amount") {
            Ok(amount) => Ok(Event::PayBounties { timestamp: ts, amount }),
            Err(e) => Err(e),
        }
    } else if str_eq(tag, "SelfDestruct") {
        Ok(Event::SelfDestruct { timestamp: ts })
    } else if str_eq(tag, "Resurrect") {
        match req_u64(v, "cost") {
            Ok(cost) => Ok(Event::Resurrect { timestamp: ts, cost }),
            Err(e) => Err(e),
        }
    } else if str_eq(tag, "RestockVehicle") {
        match req_u64(v, "cost") {
            Ok(cost) => Ok(Event::RestockVehicle { timestamp: ts, cost }),
            Err(e) => Err(e),
        }
    } else if str_eq(tag, "Died") {
        Ok(Event::Died { timestamp: ts })
    } else {
        Ok(Event::Unknown { timestamp: ts })
    }
}

/// Decodes one parsed JSON value into exactly one record, or a structured
/// failure. A value that is not an object is `MalformedJson`.
pub fn decode(v: &serde_json::Value) -> (r: Result<Event, DecodeError>)
    ensures
        match r {
            Ok(e) => spec_decode_value(json_model(*v)) == Ok::<SpecEvent, SpecDecodeError>(e@),
            Err(er) => spec_decode_value(json_model(*v)) == Err::<SpecEvent, SpecDecodeError>(
                er@,
            ),
        },
{
    if val_is_object(v) {
        decode_obj(v)
    } else {
        Err(DecodeError::MalformedJson)
    }
}

/// Decodes one raw journal line: parses it as JSON, then decodes the object.
/// A line that is not a JSON object is `MalformedJson`.
pub fn decode_line(line: &str) -> (r: Result<Event, DecodeError>)
    ensures
        match r {
            Ok(e) => spec_decode_line(line@) == Ok::<SpecEvent, SpecDecodeError>(e@),
            Err(er) => spec_decode_line(line@) == Err::<SpecEvent, SpecDecodeError>(er@),
        },
{
    match parse_json(line) {
        Some(v) => decode(&v),
        None => Err(DecodeError::MalformedJson),
    }
}

} // verus!
