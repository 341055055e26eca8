use burner_client::controller::{Controller, InventorySnapshot, StartDecision, WidgetPhase};
use burner_client::record::CredentialRecord;
use burner_client::token::TokenSlot;
use burner_client::workflow::{AcquireError, BulkResult, EmailType, SingleResult};

fn chars(s: &str) -> Vec<char> {
    s.chars().collect()
}

fn text(cs: &[char]) -> String {
    cs.iter().collect()
}

fn record(a: &str, b: &str, c: &str, d: &str) -> CredentialRecord {
    CredentialRecord {
        address: chars(a),
        secret: chars(b),
        refresh_token: chars(c),
        client_id: chars(d),
    }
}

#[test]
fn token_slot_is_single_use() {
    let mut slot = TokenSlot::new();
    slot.on_solved(chars("solution-1"));
    let first = slot.consume();
    assert_eq!(first.map(|t| text(&t)), Some("solution-1".to_string()));
    let second = slot.consume();
    assert!(second.is_none());
}

#[test]
fn token_slot_reset_discards() {
    let mut slot = TokenSlot::new();
    slot.on_solved(chars("solution-2"));
    assert!(slot.is_present());
    slot.reset();
    assert!(!slot.is_present());
    assert!(slot.consume().is_none());
}

#[test]
fn concurrent_starts_cannot_share_a_token() {
    let mut c = Controller::new();
    c.on_solved(chars("only-token"));
    let bulk = c.start_bulk();
    match bulk {
        StartDecision::Launch { token, .. } => assert_eq!(text(&token), "only-token"),
        _ => panic!("the bulk start should win the token"),
    }
    let single = c.start_single();
    assert!(matches!(single, StartDecision::NoTokenPresent));
    assert!(!c.single_busy);
    assert!(c.bulk_busy);
}

#[test]
fn start_without_token_is_refused() {
    let mut c = Controller::new();
    assert!(matches!(c.start_single(), StartDecision::NoTokenPresent));
    assert!(!c.single_busy);
}

#[test]
fn start_carries_selected_type() {
    let mut c = Controller::new();
    c.set_email_type(EmailType::Hotmail);
    c.on_solved(chars("tok"));
    match c.start_single() {
        StartDecision::Launch { email_type, token } => {
            assert_eq!(email_type, EmailType::Hotmail);
            assert_eq!(text(&token), "tok");
        }
        _ => panic!("a token was present"),
    }
}

#[test]
fn finish_single_stores_result_and_resets_token() {
    let mut c = Controller::new();
    c.on_solved(chars("tok"));
    assert!(matches!(c.start_single(), StartDecision::Launch { .. }));
    assert!(c.single_busy);
    c.finish_single(SingleResult::Success { record: record("a", "b", "c", "d") });
    assert!(!c.single_busy);
    match &c.single {
        Some(SingleResult::Success { record }) => assert_eq!(text(&record.address), "a"),
        _ => panic!("the single slot should hold the success"),
    }
    // the unconditional reset means the next attempt needs a fresh solution
    assert!(matches!(c.start_single(), StartDecision::NoTokenPresent));
}

#[test]
fn bulk_failure_keeps_prior_records() {
    let mut c = Controller::new();
    c.on_solved(chars("t1"));
    assert!(matches!(c.start_bulk(), StartDecision::Launch { .. }));
    c.finish_bulk(BulkResult::Success {
        records: vec![record("a", "b", "c", "d"), record("e", "f", "g", "h")],
    });
    assert_eq!(c.bulk_records.len(), 2);
    assert!(c.error_slot.is_none());

    c.on_solved(chars("t2"));
    assert!(matches!(c.start_bulk(), StartDecision::Launch { .. }));
    assert!(c.error_slot.is_none());
    c.finish_bulk(BulkResult::Failure { error: AcquireError::RateLimited });
    assert!(matches!(c.error_slot, Some(AcquireError::RateLimited)));
    assert_eq!(c.bulk_records.len(), 2);
    assert!(!c.bulk_busy);
}

#[test]
fn inventory_superseded_wholesale_and_retained_on_failure() {
    let mut c = Controller::new();
    assert_eq!(c.inventory.outlook, 0);
    let snap = InventorySnapshot { outlook: 7, hotmail: 9, allocated: 3, fetched_at: 100 };
    c.apply_inventory(Some(snap));
    assert_eq!(c.inventory, snap);
    c.apply_inventory(None);
    assert_eq!(c.inventory, snap);
    let newer = InventorySnapshot { outlook: 1, hotmail: 2, allocated: 3, fetched_at: 200 };
    c.apply_inventory(Some(newer));
    assert_eq!(c.inventory, newer);
}

#[test]
fn polling_fetches_once_on_start_and_once_after_delay() {
    let mut c = Controller::new();
    assert!(c.poll_on_start());
    assert!(!c.poll_on_start());
    assert!(c.poll_on_delay_elapsed());
    assert!(!c.poll_on_delay_elapsed());
    assert!(!c.poll_on_start());
}

#[test]
fn widget_script_is_injected_exactly_once() {
    let mut c = Controller::new();
    assert!(c.widget_on_init());
    assert!(matches!(c.widget_phase, WidgetPhase::Loading));
    assert!(!c.widget_on_init());
    c.widget_on_loaded();
    assert!(matches!(c.widget_phase, WidgetPhase::Ready));
    assert!(!c.widget_on_init());
}

#[test]
fn widget_failure_disables_acquisition_without_consuming() {
    let mut c = Controller::new();
    c.widget_on_init();
    c.widget_on_failed();
    c.on_solved(chars("tok"));
    assert!(matches!(c.start_single(), StartDecision::VerificationUnavailable));
    assert!(matches!(c.start_bulk(), StartDecision::VerificationUnavailable));
    // the refusal happens before the token check: the slot is untouched
    assert!(c.token.is_present());
    assert!(!c.single_busy);
    assert!(!c.bulk_busy);
}

#[test]
fn reveal_toggles_are_independent() {
    let mut c = Controller::new();
    assert!(c.show_credentials);
    assert!(c.show_bulk_credentials);
    c.toggle_single_view();
    assert!(!c.show_credentials);
    assert!(c.show_bulk_credentials);
    c.toggle_bulk_view();
    assert!(!c.show_bulk_credentials);
    c.toggle_single_view();
    assert!(c.show_credentials);
}
