use crowdfunding_events::events;
use crowdfunding_events::host::{record_event, ContractEnv, EventLog};
use crowdfunding_events::kind::EventKind;
use crowdfunding_events::model::{Address, ContractEvent, EventRecord, Payload, PoolState, Value};

fn addr(s: &str) -> Address {
    Address { strkey: s.to_string() }
}

fn sym(s: &str) -> Value {
    Value::Symbol(s.to_string())
}

fn text(s: &str) -> Vec<u8> {
    s.as_bytes().to_vec()
}

fn record(index: u64, name: &str, timestamp: u64) -> EventRecord {
    EventRecord { index, name: text(name), timestamp }
}

const ALICE: &str = "GAAAAAAAAAAAAAAAAAAAAAAAAAAAAAAAAAAAAAAAAAAAAAAAAAAAAWHF";
const BOB: &str = "GBBBBBBBBBBBBBBBBBBBBBBBBBBBBBBBBBBBBBBBBBBBBBBBBBBBB5PH";

#[test]
fn campaign_created_publishes_and_records() {
    let mut env = ContractEnv::new(1_700);
    let id = [7u8; 32];
    events::campaign_created(&mut env, id, text("Save the park"), addr(ALICE), 10_000, 90_000);
    assert_eq!(
        env.published,
        vec![ContractEvent {
            topics: vec![sym("campaign_created"), Value::Bytes32(id), Value::Address(addr(ALICE))],
            data: Payload::Tuple(vec![
                Value::Str(text("Save the park")),
                Value::I128(10_000),
                Value::U64(90_000)
            ]),
        }]
    );
    assert_eq!(env.log.count, Some(1));
    assert_eq!(env.log.records, Some(vec![record(1, "campaign_created", 1_700)]));
}

#[test]
fn consecutive_events_are_numbered_in_order() {
    let mut env = ContractEnv::new(42);
    events::contract_paused(&mut env, addr(ALICE), 42);
    env.ledger_timestamp = 50;
    events::contract_unpaused(&mut env, addr(ALICE), 50);
    events::admin_renounced(&mut env, addr(ALICE));
    assert_eq!(env.log.count, Some(3));
    assert_eq!(
        env.log.records,
        Some(vec![
            record(1, "contract_paused", 42),
            record(2, "contract_unpaused", 50),
            record(3, "admin_renounced", 50),
        ])
    );
    assert_eq!(env.published.len(), 3);
    assert_eq!(env.published[2].data, Payload::Unit);
    assert_eq!(env.published[0].data, Payload::Single(Value::U64(42)));
}

#[test]
fn counter_continues_from_stored_value() {
    let mut env = ContractEnv::new(9);
    env.log = EventLog { count: Some(5), records: Some(vec![record(5, "refund", 1)]) };
    events::creation_fee_paid(&mut env, addr(BOB), 250);
    assert_eq!(env.log.count, Some(6));
    assert_eq!(
        env.log.records,
        Some(vec![record(5, "refund", 1), record(6, "creation_fee_paid", 9)])
    );
}

#[test]
fn absent_list_with_stored_counter_starts_a_new_list() {
    let mut env = ContractEnv::new(3);
    env.log = EventLog { count: Some(10), records: None };
    record_event(&mut env, "pool_closed");
    assert_eq!(env.log.count, Some(11));
    assert_eq!(env.log.records, Some(vec![record(11, "pool_closed", 3)]));
    assert!(env.published.is_empty());
}

#[test]
fn pool_created_is_published_and_recorded() {
    let mut env = ContractEnv::new(77);
    events::pool_created(
        &mut env,
        4,
        addr(ALICE),
        (text("Garden"), text("A garden"), 5_000, 10, 1_000_000),
    );
    assert_eq!(
        env.log,
        EventLog { count: Some(1), records: Some(vec![record(1, "pool_created", 77)]) }
    );
    assert_eq!(
        env.published,
        vec![ContractEvent {
            topics: vec![sym("pool_created"), Value::U64(4), Value::Address(addr(ALICE))],
            data: Payload::Tuple(vec![
                Value::Str(text("Garden")),
                Value::Str(text("A garden")),
                Value::I128(5_000),
                Value::I128(10),
                Value::U64(1_000_000),
            ]),
        }]
    );
}

#[test]
fn event_created_carries_name_target_and_deadline() {
    let created_at: u64 = 0;
    let duration: u64 = 30 * 24 * 60 * 60;
    let deadline = created_at + duration;
    let mut env = ContractEnv::new(created_at);
    events::event_created(&mut env, 1, text("Community Garden"), addr(BOB), 50_000, deadline);
    let event = &env.published[0];
    assert_eq!(event.topics[0], sym("event_created"));
    assert_eq!(
        event.data,
        Payload::Tuple(vec![
            Value::Str(text("Community Garden")),
            Value::I128(50_000),
            Value::U64(2_592_000)
        ])
    );
    assert_eq!(env.log.records, Some(vec![record(1, "event_created", 0)]));
}

#[test]
fn pool_state_and_fee_events_carry_single_values() {
    let mut env = ContractEnv::new(5);
    events::pool_state_updated(&mut env, 8, PoolState::Paused);
    events::platform_fee_bps_set(&mut env, addr(ALICE), 250);
    events::event_fees_withdrawn(&mut env, addr(ALICE), addr(BOB), 500);
    assert_eq!(env.published[0].topics, vec![sym("pool_state_updated"), Value::U64(8)]);
    assert_eq!(env.published[0].data, Payload::Single(Value::PoolState(PoolState::Paused)));
    assert_eq!(env.published[1].data, Payload::Single(Value::U32(250)));
    assert_eq!(
        env.published[2].topics,
        vec![sym("event_fees_withdrawn"), Value::Address(addr(ALICE)), Value::Address(addr(BOB))]
    );
    assert_eq!(env.published[2].data, Payload::Single(Value::I128(500)));
}

#[test]
fn contribution_carries_asset_amount_time_and_privacy() {
    let mut env = ContractEnv::new(100);
    events::contribution(&mut env, 2, addr(BOB), addr(ALICE), 300, 99, true);
    assert_eq!(
        env.published[0],
        ContractEvent {
            topics: vec![sym("contribution"), Value::U64(2), Value::Address(addr(BOB))],
            data: Payload::Tuple(vec![
                Value::Address(addr(ALICE)),
                Value::I128(300),
                Value::U64(99),
                Value::Bool(true)
            ]),
        }
    );
}

#[test]
fn ticket_sold_and_donation_payloads() {
    let mut env = ContractEnv::new(1);
    events::ticket_sold(&mut env, 3, addr(BOB), 1_000, 950, 50);
    events::donation_made(&mut env, [1u8; 32], addr(ALICE), 20);
    assert_eq!(
        env.published[0].data,
        Payload::Tuple(vec![Value::I128(1_000), Value::I128(950), Value::I128(50)])
    );
    assert_eq!(env.published[1].topics, vec![sym("donation_made"), Value::Bytes32([1u8; 32])]);
    assert_eq!(
        env.published[1].data,
        Payload::Tuple(vec![Value::Address(addr(ALICE)), Value::I128(20)])
    );
}

fn emit_every_kind(env: &mut ContractEnv) {
    let id = [9u8; 32];
    events::campaign_created(env, id, text("t"), addr(ALICE), 1, 2);
    events::campaign_goal_updated(env, id, 3);
    events::pool_created(env, 1, addr(ALICE), (text("p"), text("d"), 1, 0, 2));
    events::event_created(env, 1, text("n"), addr(ALICE), 4, 5);
    events::pool_state_updated(env, 1, PoolState::Active);
    events::contract_paused(env, addr(ALICE), 6);
    events::contract_unpaused(env, addr(ALICE), 7);
    events::admin_renounced(env, addr(ALICE));
    events::emergency_contact_updated(env, addr(ALICE), addr(BOB));
    events::donation_made(env, id, addr(BOB), 8);
    events::campaign_cancelled(env, id);
    events::campaign_refunded(env, id, addr(BOB), 9);
    events::contribution(env, 1, addr(BOB), addr(ALICE), 10, 11, false);
    events::emergency_withdraw_requested(env, addr(ALICE), addr(BOB), 12, 13);
    events::emergency_withdraw_executed(env, addr(ALICE), addr(BOB), 14);
    events::crowdfunding_token_set(env, addr(ALICE), addr(BOB));
    events::creation_fee_set(env, addr(ALICE), 15);
    events::creation_fee_paid(env, addr(BOB), 16);
    events::refund(env, 1, addr(BOB), addr(ALICE), 17, 18);
    events::pool_closed(env, 1, addr(ALICE), 19);
    events::platform_fees_withdrawn(env, addr(BOB), 20);
    events::event_fees_withdrawn(env, addr(ALICE), addr(BOB), 21);
    events::address_blacklisted(env, addr(ALICE), addr(BOB));
    events::address_unblacklisted(env, addr(ALICE), addr(BOB));
    events::pool_metadata_updated(env, 1, addr(ALICE), text("QmHash"));
    events::platform_fee_bps_set(env, addr(ALICE), 22);
    events::ticket_sold(env, 1, addr(BOB), 23, 24, 25);
}

#[test]
fn every_recorded_event_names_its_topic_symbol() {
    let mut env = ContractEnv::new(11);
    emit_every_kind(&mut env);
    let records = env.log.records.clone().unwrap();
    assert_eq!(records.len(), 27);
    assert_eq!(env.log.count, Some(27));
    assert_eq!(env.published.len(), 27);
    for (i, (rec, event)) in records.iter().zip(env.published.iter()).enumerate() {
        assert_eq!(rec.index, i as u64 + 1);
        assert_eq!(rec.timestamp, 11);
        match &event.topics[0] {
            Value::Symbol(s) => assert_eq!(s.as_bytes(), rec.name.as_slice()),
            other => panic!("first topic is not a symbol: {:?}", other),
        }
    }
}

#[test]
fn event_names_are_valid_distinct_symbols() {
    let kinds = [
        EventKind::CampaignCreated,
        EventKind::CampaignGoalUpdated,
        EventKind::PoolCreated,
        EventKind::EventCreated,
        EventKind::PoolStateUpdated,
        EventKind::ContractPaused,
        EventKind::ContractUnpaused,
        EventKind::AdminRenounced,
        EventKind::EmergencyContactUpdated,
        EventKind::DonationMade,
        EventKind::CampaignCancelled,
        EventKind::CampaignRefunded,
        EventKind::Contribution,
        EventKind::EmergencyWithdrawRequested,
        EventKind::EmergencyWithdrawExecuted,
        EventKind::CrowdfundingTokenSet,
        EventKind::CreationFeeSet,
        EventKind::CreationFeePaid,
        EventKind::Refund,
        EventKind::PoolClosed,
        EventKind::PlatformFeesWithdrawn,
        EventKind::EventFeesWithdrawn,
        EventKind::AddressBlacklisted,
        EventKind::AddressUnblacklisted,
        EventKind::PoolMetadataUpdated,
        EventKind::PlatformFeeBpsSet,
        EventKind::TicketSold,
    ];
    for (i, a) in kinds.iter().enumerate() {
        let name = a.name();
        assert!(name.len() <= 32);
        assert!(name.chars().all(|c| c.is_ascii_alphanumeric() || c == '_'));
        for b in kinds.iter().skip(i + 1) {
            assert_ne!(name, b.name());
        }
    }
    assert_eq!(EventKind::EmergencyWithdrawRequested.name(), "emergency_withdraw_requested");
}

#[test]
fn can_record_stops_at_counter_limit() {
    let mut env = ContractEnv::new(0);
    assert!(env.can_record());
    env.log.count = Some(u64::MAX - 1);
    assert!(env.can_record());
    record_event(&mut env, "refund");
    assert_eq!(env.log.count, Some(u64::MAX));
    assert!(!env.can_record());
}
