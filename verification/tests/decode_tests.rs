//! Tests of the per-line decoder: the variant catalog, field aliases,
//! optional fields, the unknown-tag fallback, and the failure taxonomy.

use journal::DecodeError;
use journal::Event;
use journal::FieldKind;
use journal::decode;
use journal::decode_line;

const TS: &str = "2024-01-01T00:00:00+00:00";

#[test]
fn bounty_with_optional_absent() {
    let line = r#"{"event":"Bounty","timestamp":"2024-01-01T00:00:00+00:00","total_reward":5000}"#;
    match decode_line(line) {
        Ok(Event::Bounty { timestamp, total_reward, victim_faction }) => {
            assert_eq!(total_reward, 5000);
            assert_eq!(victim_faction, None);
            assert_eq!(timestamp.year, 2024);
            assert_eq!(timestamp.month, 1);
            assert_eq!(timestamp.day, 1);
            assert_eq!(timestamp.hour, 0);
            assert_eq!(timestamp.offset_seconds, 0);
        }
        other => panic!("unexpected result: {:?}", other),
    }
}

#[test]
fn bounty_with_victim_faction_present() {
    let line = format!(
        r#"{{"event":"Bounty","timestamp":"{}","total_reward":25000,"victim_faction":"The Dark Wheel"}}"#,
        TS
    );
    match decode_line(&line) {
        Ok(Event::Bounty { total_reward, victim_faction, .. }) => {
            assert_eq!(total_reward, 25000);
            assert_eq!(victim_faction, Some("The Dark Wheel".to_string()));
        }
        other => panic!("unexpected result: {:?}", other),
    }
}

#[test]
fn bounty_empty_string_differs_from_absent() {
    let absent =
        format!(r#"{{"event":"Bounty","timestamp":"{}","total_reward":1}}"#, TS);
    let empty = format!(
        r#"{{"event":"Bounty","timestamp":"{}","total_reward":1,"victim_faction":""}}"#,
        TS
    );
    let a = decode_line(&absent).unwrap();
    let b = decode_line(&empty).unwrap();
    assert_ne!(a, b);
    match b {
        Event::Bounty { victim_faction, .. } => {
            assert_eq!(victim_faction, Some(String::new()))
        }
        other => panic!("unexpected result: {:?}", other),
    }
}

#[test]
fn died_has_no_extra_fields() {
    let line = r#"{"event":"Died","timestamp":"2024-01-01T00:00:00+00:00"}"#;
    match decode_line(line) {
        Ok(Event::Died { timestamp }) => {
            assert_eq!(timestamp.year, 2024);
        }
        other => panic!("unexpected result: {:?}", other),
    }
}

#[test]
fn unknown_tag_decodes_to_unknown() {
    let line = format!(r#"{{"event":"SomeFutureEvent","timestamp":"{}","whatever":3}}"#, TS);
    match decode_line(&line) {
        Ok(Event::Unknown { timestamp }) => {
            assert_eq!(timestamp.year, 2024);
        }
        other => panic!("unexpected result: {:?}", other),
    }
}

#[test]
fn market_sell_accepts_type_field() {
    let line = format!(r#"{{"event":"MarketSell","timestamp":"{}","type":"gold"}}"#, TS);
    match decode_line(&line) {
        Ok(Event::MarketSell { target, .. }) => assert_eq!(target, "gold"),
        other => panic!("unexpected result: {:?}", other),
    }
}

#[test]
fn market_sell_accepts_capitalized_alias() {
    let lower = format!(r#"{{"event":"MarketSell","timestamp":"{}","type":"gold"}}"#, TS);
    let upper = format!(r#"{{"event":"MarketSell","timestamp":"{}","Type":"gold"}}"#, TS);
    assert_eq!(decode_line(&lower).unwrap(), decode_line(&upper).unwrap());
}

#[test]
fn market_buy_accepts_either_spelling() {
    let lower = format!(r#"{{"event":"MarketBuy","timestamp":"{}","type":"silver"}}"#, TS);
    let upper = format!(r#"{{"event":"MarketBuy","timestamp":"{}","Type":"silver"}}"#, TS);
    let a = decode_line(&lower).unwrap();
    let b = decode_line(&upper).unwrap();
    assert_eq!(a, b);
    match a {
        Event::MarketBuy { target, .. } => assert_eq!(target, "silver"),
        other => panic!("unexpected result: {:?}", other),
    }
}

#[test]
fn commander_record() {
    let line = format!(r#"{{"event":"Commander","timestamp":"{}","name":"Jameson"}}"#, TS);
    match decode_line(&line) {
        Ok(Event::Commander { name, .. }) => assert_eq!(name, "Jameson"),
        other => panic!("unexpected result: {:?}", other),
    }
}

#[test]
fn progress_ranks() {
    let line = format!(
        r#"{{"event":"Progress","timestamp":"{}","combat":7,"trade":2,"explore":9,"soldier":0,"exobiologist":1,"empire":3,"federation":255}}"#,
        TS
    );
    match decode_line(&line) {
        Ok(Event::Progress { combat, trade, explore, soldier, exobiologist, empire, federation, .. }) => {
            assert_eq!(combat, 7);
            assert_eq!(trade, 2);
            assert_eq!(explore, 9);
            assert_eq!(soldier, 0);
            assert_eq!(exobiologist, 1);
            assert_eq!(empire, 3);
            assert_eq!(federation, 255);
        }
        other => panic!("unexpected result: {:?}", other),
    }
}

#[test]
fn progress_rank_out_of_range_is_type_mismatch() {
    let line = format!(
        r#"{{"event":"Progress","timestamp":"{}","combat":300,"trade":2,"explore":9,"soldier":0,"exobiologist":1,"empire":3,"federation":4}}"#,
        TS
    );
    assert_eq!(
        decode_line(&line),
        Err(DecodeError::TypeMismatch("combat".to_string(), FieldKind::Unsigned))
    );
}

#[test]
fn reputation_keeps_fractional_text() {
    let line = format!(
        r#"{{"event":"Reputation","timestamp":"{}","empire":75.5,"federation":0.0,"independent":12,"alliance":-3.25}}"#,
        TS
    );
    match decode_line(&line) {
        Ok(Event::Reputation { empire, federation, independent, alliance, .. }) => {
            assert_eq!(empire, "75.5");
            assert_eq!(federation, "0.0");
            assert_eq!(independent, "12");
            assert_eq!(alliance, "-3.25");
        }
        other => panic!("unexpected result: {:?}", other),
    }
}

#[test]
fn powerplay_and_merits() {
    let line = format!(
        r#"{{"event":"Powerplay","timestamp":"{}","rank":3,"merits":1200}}"#,
        TS
    );
    match decode_line(&line) {
        Ok(Event::Powerplay { rank, merits, .. }) => {
            assert_eq!(rank, 3);
            assert_eq!(merits, 1200);
        }
        other => panic!("unexpected result: {:?}", other),
    }
    let line2 = format!(
        r#"{{"event":"PowerplayMerits","timestamp":"{}","power":"Arissa","merits_gained":40,"total_merits":1240}}"#,
        TS
    );
    match decode_line(&line2) {
        Ok(Event::PowerplayMerits { power, merits_gained, total_merits, .. }) => {
            assert_eq!(power, "Arissa");
            assert_eq!(merits_gained, 40);
            assert_eq!(total_merits, 1240);
        }
        other => panic!("unexpected result: {:?}", other),
    }
}

#[test]
fn redeem_voucher_faction_list() {
    let line = format!(
        r#"{{"event":"RedeemVoucher","timestamp":"{}","amount":1000,"factions":["A","B","C"],"faction":"A"}}"#,
        TS
    );
    match decode_line(&line) {
        Ok(Event::RedeemVoucher { amount, factions, faction, .. }) => {
            assert_eq!(amount, 1000);
            assert_eq!(factions, vec!["A".to_string(), "B".to_string(), "C".to_string()]);
            assert_eq!(faction, "A");
        }
        other => panic!("unexpected result: {:?}", other),
    }
}

#[test]
fn redeem_voucher_mixed_list_is_type_mismatch() {
    let line = format!(
        r#"{{"event":"RedeemVoucher","timestamp":"{}","amount":1000,"factions":["A",2],"faction":"A"}}"#,
        TS
    );
    assert_eq!(
        decode_line(&line),
        Err(DecodeError::TypeMismatch("factions".to_string(), FieldKind::TextList))
    );
}

#[test]
fn mission_completed_optionals() {
    let both = format!(
        r#"{{"event":"MissionCompleted","timestamp":"{}","donated":10,"reward":20}}"#,
        TS
    );
    match decode_line(&both) {
        Ok(Event::MissionCompleted { donated, reward, .. }) => {
            assert_eq!(donated, Some(10));
            assert_eq!(reward, Some(20));
        }
        other => panic!("unexpected result: {:?}", other),
    }
    let neither = format!(r#"{{"event":"MissionCompleted","timestamp":"{}"}}"#, TS);
    match decode_line(&neither) {
        Ok(Event::MissionCompleted { donated, reward, .. }) => {
            assert_eq!(donated, None);
            assert_eq!(reward, None);
        }
        other => panic!("unexpected result: {:?}", other),
    }
}

#[test]
fn codex_entry_optional_voucher() {
    let absent = format!(r#"{{"event":"CodexEntry","timestamp":"{}"}}"#, TS);
    match decode_line(&absent) {
        Ok(Event::CodexEntry { voucher_amount, .. }) => assert_eq!(voucher_amount, None),
        other => panic!("unexpected result: {:?}", other),
    }
    let present = format!(r#"{{"event":"CodexEntry","timestamp":"{}","voucher_amount":0}}"#, TS);
    match decode_line(&present) {
        Ok(Event::CodexEntry { voucher_amount, .. }) => assert_eq!(voucher_amount, Some(0)),
        other => panic!("unexpected result: {:?}", other),
    }
}

#[test]
fn cost_and_amount_variants() {
    let refuel = format!(r#"{{"event":"RefuelAll","timestamp":"{}","cost":113}}"#, TS);
    assert!(matches!(decode_line(&refuel), Ok(Event::RefuelAll { cost: 113, .. })));
    let wage = format!(r#"{{"event":"NpcCrewPaidWage","timestamp":"{}","amount":5}}"#, TS);
    assert!(matches!(decode_line(&wage), Ok(Event::NpcCrewPaidWage { amount: 5, .. })));
    let sell = format!(
        r#"{{"event":"SellDrones","timestamp":"{}","sell_price":101,"total_sale":505}}"#,
        TS
    );
    assert!(matches!(
        decode_line(&sell),
        Ok(Event::SellDrones { sell_price: 101, total_sale: 505, .. })
    ));
    let ship = format!(r#"{{"event":"ShipyardBuy","timestamp":"{}","ship_price":1000000}}"#, TS);
    assert!(matches!(decode_line(&ship), Ok(Event::ShipyardBuy { ship_price: 1000000, .. })));
}

#[test]
fn malformed_json_line() {
    assert_eq!(decode_line("{not json"), Err(DecodeError::MalformedJson));
}

#[test]
fn non_object_json_line() {
    assert_eq!(decode_line("5"), Err(DecodeError::MalformedJson));
    assert_eq!(decode_line("[1,2]"), Err(DecodeError::MalformedJson));
}

#[test]
fn missing_tag() {
    let line = format!(r#"{{"timestamp":"{}","cost":1}}"#, TS);
    assert_eq!(decode_line(&line), Err(DecodeError::MissingTag));
}

#[test]
fn missing_required_field() {
    let line = format!(r#"{{"event":"Bounty","timestamp":"{}"}}"#, TS);
    assert_eq!(
        decode_line(&line),
        Err(DecodeError::MissingField("total_reward".to_string()))
    );
}

#[test]
fn wrong_field_type() {
    let line = format!(r#"{{"event":"Bounty","timestamp":"{}","total_reward":"lots"}}"#, TS);
    assert_eq!(
        decode_line(&line),
        Err(DecodeError::TypeMismatch("total_reward".to_string(), FieldKind::Unsigned))
    );
    let neg = format!(r#"{{"event":"Bounty","timestamp":"{}","total_reward":-5}}"#, TS);
    assert_eq!(
        decode_line(&neg),
        Err(DecodeError::TypeMismatch("total_reward".to_string(), FieldKind::Unsigned))
    );
}

#[test]
fn missing_timestamp_is_fatal() {
    let line = r#"{"event":"Died"}"#;
    assert_eq!(
        decode_line(line),
        Err(DecodeError::MissingField("timestamp".to_string()))
    );
}

#[test]
fn unparsable_timestamp_is_fatal() {
    let line = r#"{"event":"Died","timestamp":"yesterday"}"#;
    assert_eq!(
        decode_line(line),
        Err(DecodeError::TypeMismatch("timestamp".to_string(), FieldKind::DateTime))
    );
}

#[test]
fn timestamp_offset_is_kept() {
    let line = r#"{"event":"Died","timestamp":"2023-06-15T08:30:45+05:30"}"#;
    match decode_line(line) {
        Ok(Event::Died { timestamp }) => {
            assert_eq!(timestamp.year, 2023);
            assert_eq!(timestamp.month, 6);
            assert_eq!(timestamp.day, 15);
            assert_eq!(timestamp.hour, 8);
            assert_eq!(timestamp.minute, 30);
            assert_eq!(timestamp.second, 45);
            assert_eq!(timestamp.offset_seconds, 5 * 3600 + 30 * 60);
        }
        other => panic!("unexpected result: {:?}", other),
    }
}

#[test]
fn decode_parsed_value_directly() {
    let v: serde_json::Value = serde_json::from_str(
        r#"{"event":"SearchAndRescue","timestamp":"2024-01-01T00:00:00+00:00","reward":77}"#,
    )
    .unwrap();
    assert!(matches!(decode(&v), Ok(Event::SearchAndRescue { reward: 77, .. })));
    let not_an_object: serde_json::Value = serde_json::from_str("true").unwrap();
    assert_eq!(decode(&not_an_object), Err(DecodeError::MalformedJson));
}

#[test]
fn unrecognized_extra_fields_are_ignored() {
    let line = format!(
        r#"{{"event":"Repair","timestamp":"{}","cost":60,"items":["hull"],"note":7}}"#,
        TS
    );
    assert!(matches!(decode_line(&line), Ok(Event::Repair { cost: 60, .. })));
}

#[test]
fn canonical_type_wins_over_alias() {
    let line = format!(
        r#"{{"event":"MarketSell","timestamp":"{}","type":"gold","Type":"silver"}}"#,
        TS
    );
    match decode_line(&line) {
        Ok(Event::MarketSell { target, .. }) => assert_eq!(target, "gold"),
        other => panic!("unexpected result: {:?}", other),
    }
}

#[test]
fn market_sell_missing_target_reports_canonical_name() {
    let line = format!(r#"{{"event":"MarketSell","timestamp":"{}"}}"#, TS);
    assert_eq!(
        decode_line(&line),
        Err(DecodeError::MissingField("type".to_string()))
    );
}

#[test]
fn powerplay_rank_out_of_range_is_type_mismatch() {
    let line = format!(
        r#"{{"event":"Powerplay","timestamp":"{}","rank":70000,"merits":0}}"#,
        TS
    );
    assert_eq!(
        decode_line(&line),
        Err(DecodeError::TypeMismatch("rank".to_string(), FieldKind::Unsigned))
    );
}

#[test]
fn faction_reward_variants() {
    let bond = format!(
        r#"{{"event":"FactionKillBond","timestamp":"{}","reward":500,"awarding_faction":"Alliance"}}"#,
        TS
    );
    match decode_line(&bond) {
        Ok(Event::FactionKillBond { reward, awarding_faction, .. }) => {
            assert_eq!(reward, 500);
            assert_eq!(awarding_faction, "Alliance");
        }
        other => panic!("unexpected result: {:?}", other),
    }
    let voucher = format!(
        r#"{{"event":"DatalinkVoucher","timestamp":"{}","reward":9,"payee_faction":"Empire"}}"#,
        TS
    );
    match decode_line(&voucher) {
        Ok(Event::DatalinkVoucher { reward, payee_faction, .. }) => {
            assert_eq!(reward, 9);
            assert_eq!(payee_faction, "Empire");
        }
        other => panic!("unexpected result: {:?}", other),
    }
    let sar = format!(
        r#"{{"event":"MultiSellExplorationData","timestamp":"{}","total_earnings":123456}}"#,
        TS
    );
    assert!(matches!(
        decode_line(&sar),
        Ok(Event::MultiSellExplorationData { total_earnings: 123456, .. })
    ));
}

#[test]
fn remaining_purchase_variants() {
    let cases = [
        ("ModuleSellRemote", "sell_price", 11u64),
        ("ModuleBuy", "buy_price", 12),
        ("BuyDrones", "buy_price", 13),
        ("BuyWeapon", "price", 14),
        ("RepairAll", "cost", 15),
        ("BuyAmmo", "cost", 16),
        ("Resurrect", "cost", 17),
        ("RestockVehicle", "cost", 18),
        ("PayBounties", "amount", 19),
        ("ShipyardSell", "ship_price", 20),
        ("ModuleSell", "sell_price", 21),
    ];
    for (tag, field, value) in cases {
        let line = format!(
            r#"{{"event":"{}","timestamp":"{}","{}":{}}}"#,
            tag, TS, field, value
        );
        let got = decode_line(&line).unwrap();
        let expected = match tag {
            "ModuleSellRemote" => matches!(got, Event::ModuleSellRemote { sell_price, .. } if sell_price == value),
            "ModuleBuy" => matches!(got, Event::ModuleBuy { buy_price, .. } if buy_price == value),
            "BuyDrones" => matches!(got, Event::BuyDrones { buy_price, .. } if buy_price == value),
            "BuyWeapon" => matches!(got, Event::BuyWeapon { price, .. } if price == value),
            "RepairAll" => matches!(got, Event::RepairAll { cost, .. } if cost == value),
            "BuyAmmo" => matches!(got, Event::BuyAmmo { cost, .. } if cost == value),
            "Resurrect" => matches!(got, Event::Resurrect { cost, .. } if cost == value),
            "RestockVehicle" => matches!(got, Event::RestockVehicle { cost, .. } if cost == value),
            "PayBounties" => matches!(got, Event::PayBounties { amount, .. } if amount == value),
            "ShipyardSell" => matches!(got, Event::ShipyardSell { ship_price, .. } if ship_price == value),
            "ModuleSell" => matches!(got, Event::ModuleSell { sell_price, .. } if sell_price == value),
            _ => false,
        };
        assert!(expected, "wrong record for {}: {:?}", tag, got);
    }
}

#[test]
fn timestamp_accessor_matches_embedded_field() {
    let line = r#"{"event":"Died","timestamp":"2024-01-01T00:00:00+00:00"}"#;
    let e = decode_line(line).unwrap();
    assert_eq!(e.timestamp().year, 2024);
    assert_eq!(e.timestamp().nanosecond, 0);
}
