//! Tests of the journal reader: line splitting, blank-line skipping, order
//! preservation, and the two failure policies.

use journal::DecodeError;
use journal::Event;
use journal::Policy;
use journal::decode_journal;

const TS: &str = "2024-01-01T00:00:00+00:00";

fn valid_lines(n: u64) -> String {
    let mut out = String::new();
    for i in 0..n {
        out.push_str(&format!(
            r#"{{"event":"RefuelAll","timestamp":"{}","cost":{}}}"#,
            TS, i
        ));
        out.push('\n');
    }
    out
}

#[test]
fn strict_all_or_nothing() {
    let mut content = valid_lines(3);
    content.push_str("{broken\n");
    let r = decode_journal(&content, Policy::Strict);
    match r {
        Err(failure) => {
            assert_eq!(failure.line, "{broken");
            assert_eq!(failure.error, DecodeError::MalformedJson);
        }
        Ok(rep) => panic!("strict read must fail, got {} records", rep.events.len()),
    }
}

#[test]
fn lenient_partial_success() {
    let mut content = valid_lines(3);
    content.push_str("{broken\n");
    let rep = decode_journal(&content, Policy::Lenient).unwrap();
    assert_eq!(rep.events.len(), 3);
    for (i, e) in rep.events.iter().enumerate() {
        match e {
            Event::RefuelAll { cost, .. } => assert_eq!(*cost, i as u64),
            other => panic!("unexpected record: {:?}", other),
        }
    }
    assert_eq!(rep.failures.len(), 1);
    assert_eq!(rep.failures[0].line, "{broken");
    assert_eq!(rep.failures[0].error, DecodeError::MalformedJson);
}

#[test]
fn strict_succeeds_on_clean_input() {
    let content = valid_lines(4);
    let rep = decode_journal(&content, Policy::Strict).unwrap();
    assert_eq!(rep.events.len(), 4);
    assert!(rep.failures.is_empty());
}

#[test]
fn order_is_preserved_across_skipped_lines() {
    let content = format!(
        "{}\nnot json\n{}\n\n{}\n",
        format!(r#"{{"event":"PayFines","timestamp":"{}","amount":1}}"#, TS),
        format!(r#"{{"event":"PayFines","timestamp":"{}","amount":2}}"#, TS),
        format!(r#"{{"event":"PayFines","timestamp":"{}","amount":3}}"#, TS),
    );
    let rep = decode_journal(&content, Policy::Lenient).unwrap();
    let amounts: Vec<u64> = rep
        .events
        .iter()
        .map(|e| match e {
            Event::PayFines { amount, .. } => *amount,
            other => panic!("unexpected record: {:?}", other),
        })
        .collect();
    assert_eq!(amounts, vec![1, 2, 3]);
    assert_eq!(rep.failures.len(), 1);
    assert_eq!(rep.failures[0].line, "not json");
}

#[test]
fn blank_lines_are_skipped() {
    let content = format!(
        "{}\n\n{}\n",
        format!(r#"{{"event":"Died","timestamp":"{}"}}"#, TS),
        format!(r#"{{"event":"SelfDestruct","timestamp":"{}"}}"#, TS),
    );
    for policy in [Policy::Strict, Policy::Lenient] {
        let rep = decode_journal(&content, policy).unwrap();
        assert_eq!(rep.events.len(), 2);
        assert!(matches!(rep.events[0], Event::Died { .. }));
        assert!(matches!(rep.events[1], Event::SelfDestruct { .. }));
        assert!(rep.failures.is_empty());
    }
}

#[test]
fn whitespace_only_lines_are_skipped() {
    let content = format!(
        "   \t\n{}\n  \n",
        format!(r#"{{"event":"Died","timestamp":"{}"}}"#, TS),
    );
    let rep = decode_journal(&content, Policy::Strict).unwrap();
    assert_eq!(rep.events.len(), 1);
}

#[test]
fn crlf_terminators_split_like_lf() {
    let content = format!(
        "{}\r\n{}\r\n",
        format!(r#"{{"event":"Died","timestamp":"{}"}}"#, TS),
        format!(r#"{{"event":"Died","timestamp":"{}"}}"#, TS),
    );
    let rep = decode_journal(&content, Policy::Strict).unwrap();
    assert_eq!(rep.events.len(), 2);
}

#[test]
fn empty_input_yields_nothing() {
    for policy in [Policy::Strict, Policy::Lenient] {
        let rep = decode_journal("", policy).unwrap();
        assert!(rep.events.is_empty());
        assert!(rep.failures.is_empty());
    }
}

#[test]
fn unknown_tags_pass_under_both_policies() {
    let content = format!(r#"{{"event":"SomeFutureEvent","timestamp":"{}"}}"#, TS);
    for policy in [Policy::Strict, Policy::Lenient] {
        let rep = decode_journal(&content, policy).unwrap();
        assert_eq!(rep.events.len(), 1);
        assert!(matches!(rep.events[0], Event::Unknown { .. }));
        assert!(rep.failures.is_empty());
    }
}

#[test]
fn strict_reports_first_failure_only() {
    let content = "{bad one\n{bad two\n";
    match decode_journal(content, Policy::Strict) {
        Err(failure) => assert_eq!(failure.line, "{bad one"),
        Ok(_) => panic!("strict read must fail"),
    }
}

#[test]
fn lenient_reports_every_failure_in_order() {
    let content = format!(
        "{{bad one\n{}\n{{bad two\n",
        format!(r#"{{"event":"Died","timestamp":"{}"}}"#, TS),
    );
    let rep = decode_journal(&content, Policy::Lenient).unwrap();
    assert_eq!(rep.events.len(), 1);
    assert_eq!(rep.failures.len(), 2);
    assert_eq!(rep.failures[0].line, "{bad one");
    assert_eq!(rep.failures[1].line, "{bad two");
}

#[test]
fn last_line_without_terminator_is_read() {
    let content = format!(r#"{{"event":"Died","timestamp":"{}"}}"#, TS);
    let rep = decode_journal(&content, Policy::Strict).unwrap();
    assert_eq!(rep.events.len(), 1);
}
