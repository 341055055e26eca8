use burner_client::record::{bulk_copy_text, parse_record, reconstruct_line, CredentialRecord};
use burner_client::text::{chars_eq, join_with, split_on};
use burner_client::workflow::{
    interpret_bulk, interpret_single, parse_bulk_body, query_params, AcquireError, BulkResult,
    EmailType, FetchOutcome, SingleResult,
};

fn chars(s: &str) -> Vec<char> {
    s.chars().collect()
}

fn text(cs: &[char]) -> String {
    cs.iter().collect()
}

#[test]
fn split_and_join_are_inverse() {
    let parts = split_on(&chars("a:b::c"), ':');
    assert_eq!(parts.len(), 4);
    assert_eq!(text(&parts[0]), "a");
    assert_eq!(text(&parts[1]), "b");
    assert_eq!(text(&parts[2]), "");
    assert_eq!(text(&parts[3]), "c");
    let rejoined = join_with(&parts, ':');
    assert_eq!(text(&rejoined), "a:b::c");
}

#[test]
fn record_round_trip_is_identity() {
    let line = chars("alice@example.com:hunter2:refresh-0001:client-42");
    let rec = parse_record(&line).expect("four fields should parse");
    assert_eq!(text(&rec.address), "alice@example.com");
    assert_eq!(text(&rec.secret), "hunter2");
    assert_eq!(text(&rec.refresh_token), "refresh-0001");
    assert_eq!(text(&rec.client_id), "client-42");
    let rebuilt = reconstruct_line(&rec);
    assert!(chars_eq(&rebuilt, &line));
}

#[test]
fn wrong_field_counts_are_rejected() {
    assert!(parse_record(&chars("a:b:c")).is_none());
    assert!(parse_record(&chars("a:b:c:d:e")).is_none());
    assert!(parse_record(&chars("")).is_none());
    assert!(parse_record(&chars("no-colons-at-all")).is_none());
}

#[test]
fn bulk_parse_drops_malformed_lines() {
    let recs = parse_bulk_body(&chars("a:b:c:d\nbad-line\ne:f:g:h"));
    assert_eq!(recs.len(), 2);
    assert_eq!(text(&recs[0].address), "a");
    assert_eq!(text(&recs[0].secret), "b");
    assert_eq!(text(&recs[0].refresh_token), "c");
    assert_eq!(text(&recs[0].client_id), "d");
    assert_eq!(text(&recs[1].address), "e");
    assert_eq!(text(&recs[1].secret), "f");
    assert_eq!(text(&recs[1].refresh_token), "g");
    assert_eq!(text(&recs[1].client_id), "h");
}

#[test]
fn bulk_parse_of_empty_body_is_empty() {
    let recs = parse_bulk_body(&chars(""));
    assert_eq!(recs.len(), 0);
}

#[test]
fn bulk_parse_ignores_trailing_newline() {
    let recs = parse_bulk_body(&chars("a:b:c:d\n"));
    assert_eq!(recs.len(), 1);
    assert_eq!(text(&recs[0].address), "a");
}

#[test]
fn trailing_separator_makes_five_fields() {
    assert!(parse_record(&chars("a:b:c:d:")).is_none());
    assert!(parse_record(&chars(":a:b:c")).is_some());
}

#[test]
fn single_success_parses_record() {
    let r = interpret_single(FetchOutcome::Response {
        status: 200,
        body: chars("a@x:pw:rt:cid"),
    });
    match r {
        SingleResult::Success { record } => {
            assert_eq!(text(&record.address), "a@x");
            assert_eq!(text(&record.secret), "pw");
            assert_eq!(text(&record.refresh_token), "rt");
            assert_eq!(text(&record.client_id), "cid");
        }
        SingleResult::Failure { .. } => panic!("expected a success"),
    }
}

#[test]
fn single_error_sentinel_is_propagated_verbatim() {
    let r = interpret_single(FetchOutcome::Response {
        status: 200,
        body: chars("Error:quota exceeded"),
    });
    match r {
        SingleResult::Failure { error: AcquireError::Provider { message } } => {
            assert_eq!(text(&message), "Error:quota exceeded");
        }
        _ => panic!("expected a provider failure"),
    }
}

#[test]
fn single_malformed_shapes_fail() {
    let r = interpret_single(FetchOutcome::Response { status: 200, body: chars("just-noise") });
    assert!(matches!(r, SingleResult::Failure { error: AcquireError::MalformedResponse }));
    let empty = interpret_single(FetchOutcome::Response { status: 200, body: chars("") });
    assert!(matches!(empty, SingleResult::Failure { error: AcquireError::MalformedResponse }));
}

#[test]
fn single_transport_fault_is_surfaced() {
    let r = interpret_single(FetchOutcome::TransportFailed);
    assert!(matches!(r, SingleResult::Failure { error: AcquireError::Transport }));
}

#[test]
fn bulk_rate_limit_short_circuits() {
    let r = interpret_bulk(FetchOutcome::Response { status: 429, body: chars("a:b:c:d") });
    assert!(matches!(r, BulkResult::Failure { error: AcquireError::RateLimited }));
}

#[test]
fn bulk_transport_fault_is_surfaced() {
    let r = interpret_bulk(FetchOutcome::TransportFailed);
    assert!(matches!(r, BulkResult::Failure { error: AcquireError::Transport }));
}

#[test]
fn bulk_success_carries_parsed_records() {
    let r = interpret_bulk(FetchOutcome::Response {
        status: 200,
        body: chars("a:b:c:d\ne:f:g:h"),
    });
    match r {
        BulkResult::Success { records } => {
            assert_eq!(records.len(), 2);
            assert_eq!(text(&records[0].address), "a");
            assert_eq!(text(&records[1].address), "e");
        }
        BulkResult::Failure { .. } => panic!("expected a success"),
    }
}

#[test]
fn query_params_have_exact_shape() {
    let q = query_params(EmailType::Outlook, &chars("tok123"));
    assert_eq!(text(&q), "email_type=outlook&captcha=tok123");
    let q2 = query_params(EmailType::Random, &chars(""));
    assert_eq!(text(&q2), "email_type=random&captcha=");
}

#[test]
fn email_type_names_round_trip() {
    for t in [EmailType::Random, EmailType::Outlook, EmailType::Hotmail] {
        let name = t.name();
        assert_eq!(EmailType::from_name(&name), Some(t));
    }
    assert_eq!(EmailType::from_name(&chars("gmail")), None);
    assert_eq!(EmailType::from_name(&chars("")), None);
}

#[test]
fn reveal_pair_follows_mode() {
    let rec = CredentialRecord {
        address: chars("a@x"),
        secret: chars("pw"),
        refresh_token: chars("rt"),
        client_id: chars("cid"),
    };
    assert_eq!(text(&rec.reveal_pair(true)), "a@x:pw");
    assert_eq!(text(&rec.reveal_pair(false)), "rt:cid");
}

#[test]
fn bulk_copy_text_joins_lines() {
    let recs = vec![
        CredentialRecord {
            address: chars("a"),
            secret: chars("b"),
            refresh_token: chars("c"),
            client_id: chars("d"),
        },
        CredentialRecord {
            address: chars("e"),
            secret: chars("f"),
            refresh_token: chars("g"),
            client_id: chars("h"),
        },
    ];
    assert_eq!(text(&bulk_copy_text(&recs, true)), "a:b\ne:f");
    assert_eq!(text(&bulk_copy_text(&recs, false)), "c:d\ng:h");
    let none: Vec<CredentialRecord> = Vec::new();
    assert_eq!(text(&bulk_copy_text(&none, true)), "");
}
