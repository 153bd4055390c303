use vstd::prelude::*;

use crate::host::{emit, ContractEnv};
use crate::kind::EventKind;
use crate::model::{
    values_view, Address, Payload, PayloadModel, PoolState, Text, Value, ValueModel,
};

verus! {

/// Announces that a campaign was created: publishes the event with topics
/// `("campaign_created", id, creator)` and data `(title, goal, deadline)`, and
/// records it in the global event log.
pub fn campaign_created(
    env: &mut ContractEnv,
    id: [u8; 32],
    title: Text,
    creator: Address,
    goal: i128,
    deadline: u64,
)
    requires
        old(env)@.can_record(),
    ensures
        final(env)@ == old(env)@.emitted(
            EventKind::CampaignCreated,
            seq![ValueModel::Bytes32(id), ValueModel::Address(creator@)],
            PayloadModel::Tuple(seq![
                ValueModel::Str(title@),
                ValueModel::I128(goal),
                ValueModel::U64(deadline),
            ]),
        ),
{
    let args = vec![Value::Bytes32(id), Value::Address(creator)];
    assert(values_view(args@) =~= seq![ValueModel::Bytes32(id), ValueModel::Address(creator@)]);
    let fields = vec![Value::Str(title), Value::I128(goal), Value::U64(deadline)];
    assert(values_view(fields@) =~= seq![
        ValueModel::Str(title@),
        ValueModel::I128(goal),
        ValueModel::U64(deadline),
    ]);
    emit(env, EventKind::CampaignCreated, args, Payload::Tuple(fields));
}

/// Announces that a campaign's goal was changed: publishes the event with
/// topics `("campaign_goal_updated", id)` and data `new_goal`, and records it
/// in the global event log.
pub fn campaign_goal_updated(env: &mut ContractEnv, id: [u8; 32], new_goal: i128)
    requires
        old(env)@.can_record(),
    ensures
        final(env)@ == old(env)@.emitted(
            EventKind::CampaignGoalUpdated,
            seq![ValueModel::Bytes32(id)],
            PayloadModel::Single(ValueModel::I128(new_goal)),
        ),
{
    let args = vec![Value::Bytes32(id)];
    assert(values_view(args@) =~= seq![ValueModel::Bytes32(id)]);
    emit(env, EventKind::CampaignGoalUpdated, args, Payload::Single(Value::I128(new_goal)));
}

/// Announces that a pool was created: publishes the event with topics
/// `("pool_created", pool_id, creator)` and data `details`, and records it in
/// the global event log.
pub fn pool_created(
    env: &mut ContractEnv,
    pool_id: u64,
    creator: Address,
    details: (Text, Text, i128, i128, u64),
)
    requires
        old(env)@.can_record(),
    ensures
        final(env)@ == old(env)@.emitted(
            EventKind::PoolCreated,
            seq![ValueModel::U64(pool_id), ValueModel::Address(creator@)],
            PayloadModel::Tuple(seq![
                ValueModel::Str(details.0@),
                ValueModel::Str(details.1@),
                ValueModel::I128(details.2),
                ValueModel::I128(details.3),
                ValueModel::U64(details.4),
            ]),
        ),
{
    let (text_0, text_1, amount_0, amount_1, number) = details;
    let args = vec![Value::U64(pool_id), Value::Address(creator)];
    assert(values_view(args@) =~= seq![ValueModel::U64(pool_id), ValueModel::Address(creator@)]);
    let fields = vec![
        Value::Str(text_0),
        Value::Str(text_1),
        Value::I128(amount_0),
        Value::I128(amount_1),
        Value::U64(number),
    ];
    assert(values_view(fields@) =~= seq![
        ValueModel::Str(details.0@),
        ValueModel::Str(details.1@),
        ValueModel::I128(details.2),
        ValueModel::I128(details.3),
        ValueModel::U64(details.4),
    ]);
    emit(env, EventKind::PoolCreated, args, Payload::Tuple(fields));
}

/// Announces that an event pool was created: publishes the event with topics
/// `("event_created", pool_id, creator)` and data `(name, target_amount,
/// deadline)`, and records it in the global event log.
pub fn event_created(
    env: &mut ContractEnv,
    pool_id: u64,
    name: Text,
    creator: Address,
    target_amount: i128,
    deadline: u64,
)
    requires
        old(env)@.can_record(),
    ensures
        final(env)@ == old(env)@.emitted(
            EventKind::EventCreated,
            seq![ValueModel::U64(pool_id), ValueModel::Address(creator@)],
            PayloadModel::Tuple(seq![
                ValueModel::Str(name@),
                ValueModel::I128(target_amount),
                ValueModel::U64(deadline),
            ]),
        ),
{
    let args = vec![Value::U64(pool_id), Value::Address(creator)];
    assert(values_view(args@) =~= seq![ValueModel::U64(pool_id), ValueModel::Address(creator@)]);
    let fields = vec![Value::Str(name), Value::I128(target_amount), Value::U64(deadline)];
    assert(values_view(fields@) =~= seq![
        ValueModel::Str(name@),
        ValueModel::I128(target_amount),
        ValueModel::U64(deadline),
    ]);
    emit(env, EventKind::EventCreated, args, Payload::Tuple(fields));
}

/// Announces that a pool changed state: publishes the event with topics
/// `("pool_state_updated", pool_id)` and data `new_state`, and records it in
/// the global event log.
pub fn pool_state_updated(env: &mut ContractEnv, pool_id: u64, new_state: PoolState)
    requires
        old(env)@.can_record(),
    ensures
        final(env)@ == old(env)@.emitted(
            EventKind::PoolStateUpdated,
            seq![ValueModel::U64(pool_id)],
            PayloadModel::Single(ValueModel::PoolState(new_state)),
        ),
{
    let args = vec![Value::U64(pool_id)];
    assert(values_view(args@) =~= seq![ValueModel::U64(pool_id)]);
    emit(env, EventKind::PoolStateUpdated, args, Payload::Single(Value::PoolState(new_state)));
}

/// Announces that the contract was paused: publishes the event with topics
/// `("contract_paused", admin)` and data `timestamp`, and records it in the
/// global event log.
pub fn contract_paused(env: &mut ContractEnv, admin: Address, timestamp: u64)
    requires
        old(env)@.can_record(),
    ensures
        final(env)@ == old(env)@.emitted(
            EventKind::ContractPaused,
            seq![ValueModel::Address(admin@)],
            PayloadModel::Single(ValueModel::U64(timestamp)),
        ),
{
    let args = vec![Value::Address(admin)];
    assert(values_view(args@) =~= seq![ValueModel::Address(admin@)]);
    emit(env, EventKind::ContractPaused, args, Payload::Single(Value::U64(timestamp)));
}

/// Announces that the contract was unpaused: publishes the event with topics
/// `("contract_unpaused", admin)` and data `timestamp`, and records it in the
/// global event log.
pub fn contract_unpaused(env: &mut ContractEnv, admin: Address, timestamp: u64)
    requires
        old(env)@.can_record(),
    ensures
        final(env)@ == old(env)@.emitted(
            EventKind::ContractUnpaused,
            seq![ValueModel::Address(admin@)],
            PayloadModel::Single(ValueModel::U64(timestamp)),
        ),
{
    let args = vec![Value::Address(admin)];
    assert(values_view(args@) =~= seq![ValueModel::Address(admin@)]);
    emit(env, EventKind::ContractUnpaused, args, Payload::Single(Value::U64(timestamp)));
}

/// Announces that the admin renounced the role: publishes the event with topics
/// `("admin_renounced", admin)` and data `()`, and records it in the global
/// event log.
pub fn admin_renounced(env: &mut ContractEnv, admin: Address)
    requires
        old(env)@.can_record(),
    ensures
        final(env)@ == old(env)@.emitted(
            EventKind::AdminRenounced,
            seq![ValueModel::Address(admin@)],
            PayloadModel::Unit,
        ),
{
    let args = vec![Value::Address(admin)];
    assert(values_view(args@) =~= seq![ValueModel::Address(admin@)]);
    emit(env, EventKind::AdminRenounced, args, Payload::Unit);
}

/// Announces that the emergency contact was changed: publishes the event with
/// topics `("emergency_contact_updated", admin)` and data `contact`, and
/// records it in the global event log.
pub fn emergency_contact_updated(env: &mut ContractEnv, admin: Address, contact: Address)
    requires
        old(env)@.can_record(),
    ensures
        final(env)@ == old(env)@.emitted(
            EventKind::EmergencyContactUpdated,
            seq![ValueModel::Address(admin@)],
            PayloadModel::Single(ValueModel::Address(contact@)),
        ),
{
    let args = vec![Value::Address(admin)];
    assert(values_view(args@) =~= seq![ValueModel::Address(admin@)]);
    emit(env, EventKind::EmergencyContactUpdated, args, Payload::Single(Value::Address(contact)));
}

/// Announces that a donation was made to a campaign: publishes the event with
/// topics `("donation_made", campaign_id)` and data `(contributor, amount)`,
/// and records it in the global event log.
pub fn donation_made(
    env: &mut ContractEnv,
    campaign_id: [u8; 32],
    contributor: Address,
    amount: i128,
)
    requires
        old(env)@.can_record(),
    ensures
        final(env)@ == old(env)@.emitted(
            EventKind::DonationMade,
            seq![ValueModel::Bytes32(campaign_id)],
            PayloadModel::Tuple(seq![ValueModel::Address(contributor@), ValueModel::I128(amount)]),
        ),
{
    let args = vec![Value::Bytes32(campaign_id)];
    assert(values_view(args@) =~= seq![ValueModel::Bytes32(campaign_id)]);
    let fields = vec![Value::Address(contributor), Value::I128(amount)];
    assert(values_view(fields@) =~= seq![
        ValueModel::Address(contributor@),
        ValueModel::I128(amount),
    ]);
    emit(env, EventKind::DonationMade, args, Payload::Tuple(fields));
}

/// Announces that a campaign was cancelled: publishes the event with topics
/// `("campaign_cancelled", id)` and data `()`, and records it in the global
/// event log.
pub fn campaign_cancelled(env: &mut ContractEnv, id: [u8; 32])
    requires
        old(env)@.can_record(),
    ensures
        final(env)@ == old(env)@.emitted(
            EventKind::CampaignCancelled,
            seq![ValueModel::Bytes32(id)],
            PayloadModel::Unit,
        ),
{
    let args = vec![Value::Bytes32(id)];
    assert(values_view(args@) =~= seq![ValueModel::Bytes32(id)]);
    emit(env, EventKind::CampaignCancelled, args, Payload::Unit);
}

/// Announces that a campaign contribution was refunded: publishes the event
/// with topics `("campaign_refunded", id, contributor)` and data `amount`, and
/// records it in the global event log.
pub fn campaign_refunded(env: &mut ContractEnv, id: [u8; 32], contributor: Address, amount: i128)
    requires
        old(env)@.can_record(),
    ensures
        final(env)@ == old(env)@.emitted(
            EventKind::CampaignRefunded,
            seq![ValueModel::Bytes32(id), ValueModel::Address(contributor@)],
            PayloadModel::Single(ValueModel::I128(amount)),
        ),
{
    let args = vec![Value::Bytes32(id), Value::Address(contributor)];
    assert(values_view(args@) =~= seq![ValueModel::Bytes32(id), ValueModel::Address(contributor@)]);
    emit(env, EventKind::CampaignRefunded, args, Payload::Single(Value::I128(amount)));
}

/// Announces that a contribution was made to a pool: publishes the event with
/// topics `("contribution", pool_id, contributor)` and data `(asset, amount,
/// timestamp, is_private)`, and records it in the global event log.
pub fn contribution(
    env: &mut ContractEnv,
    pool_id: u64,
    contributor: Address,
    asset: Address,
    amount: i128,
    timestamp: u64,
    is_private: bool,
)
    requires
        old(env)@.can_record(),
    ensures
        final(env)@ == old(env)@.emitted(
            EventKind::Contribution,
            seq![ValueModel::U64(pool_id), ValueModel::Address(contributor@)],
            PayloadModel::Tuple(seq![
                ValueModel::Address(asset@),
                ValueModel::I128(amount),
                ValueModel::U64(timestamp),
                ValueModel::Bool(is_private),
            ]),
        ),
{
    let args = vec![Value::U64(pool_id), Value::Address(contributor)];
    assert(values_view(args@) =~= seq![
        ValueModel::U64(pool_id),
        ValueModel::Address(contributor@),
    ]);
    let fields = vec![
        Value::Address(asset),
        Value::I128(amount),
        Value::U64(timestamp),
        Value::Bool(is_private),
    ];
    assert(values_view(fields@) =~= seq![
        ValueModel::Address(asset@),
        ValueModel::I128(amount),
        ValueModel::U64(timestamp),
        ValueModel::Bool(is_private),
    ]);
    emit(env, EventKind::Contribution, args, Payload::Tuple(fields));
}

/// Announces that an emergency withdrawal was requested: publishes the event
/// with topics `("emergency_withdraw_requested", admin)` and data `(token,
/// amount, unlock_time)`, and records it in the global event log.
pub fn emergency_withdraw_requested(
    env: &mut ContractEnv,
    admin: Address,
    token: Address,
    amount: i128,
    unlock_time: u64,
)
    requires
        old(env)@.can_record(),
    ensures
        final(env)@ == old(env)@.emitted(
            EventKind::EmergencyWithdrawRequested,
            seq![ValueModel::Address(admin@)],
            PayloadModel::Tuple(seq![
                ValueModel::Address(token@),
                ValueModel::I128(amount),
                ValueModel::U64(unlock_time),
            ]),
        ),
{
    let args = vec![Value::Address(admin)];
    assert(values_view(args@) =~= seq![ValueModel::Address(admin@)]);
    let fields = vec![Value::Address(token), Value::I128(amount), Value::U64(unlock_time)];
    assert(values_view(fields@) =~= seq![
        ValueModel::Address(token@),
        ValueModel::I128(amount),
        ValueModel::U64(unlock_time),
    ]);
    emit(env, EventKind::EmergencyWithdrawRequested, args, Payload::Tuple(fields));
}

/// Announces that an emergency withdrawal was carried out: publishes the event
/// with topics `("emergency_withdraw_executed", admin)` and data `(token,
/// amount)`, and records it in the global event log.
pub fn emergency_withdraw_executed(
    env: &mut ContractEnv,
    admin: Address,
    token: Address,
    amount: i128,
)
    requires
        old(env)@.can_record(),
    ensures
        final(env)@ == old(env)@.emitted(
            EventKind::EmergencyWithdrawExecuted,
            seq![ValueModel::Address(admin@)],
            PayloadModel::Tuple(seq![ValueModel::Address(token@), ValueModel::I128(amount)]),
        ),
{
    let args = vec![Value::Address(admin)];
    assert(values_view(args@) =~= seq![ValueModel::Address(admin@)]);
    let fields = vec![Value::Address(token), Value::I128(amount)];
    assert(values_view(fields@) =~= seq![ValueModel::Address(token@), ValueModel::I128(amount)]);
    emit(env, EventKind::EmergencyWithdrawExecuted, args, Payload::Tuple(fields));
}

/// Announces that the crowdfunding token was set: publishes the event with
/// topics `("crowdfunding_token_set", admin)` and data `token`, and records it
/// in the global event log.
pub fn crowdfunding_token_set(env: &mut ContractEnv, admin: Address, token: Address)
    requires
        old(env)@.can_record(),
    ensures
        final(env)@ == old(env)@.emitted(
            EventKind::CrowdfundingTokenSet,
            seq![ValueModel::Address(admin@)],
            PayloadModel::Single(ValueModel::Address(token@)),
        ),
{
    let args = vec![Value::Address(admin)];
    assert(values_view(args@) =~= seq![ValueModel::Address(admin@)]);
    emit(env, EventKind::CrowdfundingTokenSet, args, Payload::Single(Value::Address(token)));
}

/// Announces that the creation fee was set: publishes the event with topics
/// `("creation_fee_set", admin)` and data `fee`, and records it in the global
/// event log.
pub fn creation_fee_set(env: &mut ContractEnv, admin: Address, fee: i128)
    requires
        old(env)@.can_record(),
    ensures
        final(env)@ == old(env)@.emitted(
            EventKind::CreationFeeSet,
            seq![ValueModel::Address(admin@)],
            PayloadModel::Single(ValueModel::I128(fee)),
        ),
{
    let args = vec![Value::Address(admin)];
    assert(values_view(args@) =~= seq![ValueModel::Address(admin@)]);
    emit(env, EventKind::CreationFeeSet, args, Payload::Single(Value::I128(fee)));
}

/// Announces that a creation fee was paid: publishes the event with topics
/// `("creation_fee_paid", creator)` and data `amount`, and records it in the
/// global event log.
pub fn creation_fee_paid(env: &mut ContractEnv, creator: Address, amount: i128)
    requires
        old(env)@.can_record(),
    ensures
        final(env)@ == old(env)@.emitted(
            EventKind::CreationFeePaid,
            seq![ValueModel::Address(creator@)],
            PayloadModel::Single(ValueModel::I128(amount)),
        ),
{
    let args = vec![Value::Address(creator)];
    assert(values_view(args@) =~= seq![ValueModel::Address(creator@)]);
    emit(env, EventKind::CreationFeePaid, args, Payload::Single(Value::I128(amount)));
}

/// Announces that a pool contribution was refunded: publishes the event with
/// topics `("refund", pool_id, contributor)` and data `(asset, amount,
/// timestamp)`, and records it in the global event log.
pub fn refund(
    env: &mut ContractEnv,
    pool_id: u64,
    contributor: Address,
    asset: Address,
    amount: i128,
    timestamp: u64,
)
    requires
        old(env)@.can_record(),
    ensures
        final(env)@ == old(env)@.emitted(
            EventKind::Refund,
            seq![ValueModel::U64(pool_id), ValueModel::Address(contributor@)],
            PayloadModel::Tuple(seq![
                ValueModel::Address(asset@),
                ValueModel::I128(amount),
                ValueModel::U64(timestamp),
            ]),
        ),
{
    let args = vec![Value::U64(pool_id), Value::Address(contributor)];
    assert(values_view(args@) =~= seq![
        ValueModel::U64(pool_id),
        ValueModel::Address(contributor@),
    ]);
    let fields = vec![Value::Address(asset), Value::I128(amount), Value::U64(timestamp)];
    assert(values_view(fields@) =~= seq![
        ValueModel::Address(asset@),
        ValueModel::I128(amount),
        ValueModel::U64(timestamp),
    ]);
    emit(env, EventKind::Refund, args, Payload::Tuple(fields));
}

/// Announces that a pool was closed: publishes the event with topics
/// `("pool_closed", pool_id, closed_by)` and data `timestamp`, and records it
/// in the global event log.
pub fn pool_closed(env: &mut ContractEnv, pool_id: u64, closed_by: Address, timestamp: u64)
    requires
        old(env)@.can_record(),
    ensures
        final(env)@ == old(env)@.emitted(
            EventKind::PoolClosed,
            seq![ValueModel::U64(pool_id), ValueModel::Address(closed_by@)],
            PayloadModel::Single(ValueModel::U64(timestamp)),
        ),
{
    let args = vec![Value::U64(pool_id), Value::Address(closed_by)];
    assert(values_view(args@) =~= seq![ValueModel::U64(pool_id), ValueModel::Address(closed_by@)]);
    emit(env, EventKind::PoolClosed, args, Payload::Single(Value::U64(timestamp)));
}

/// Announces that platform fees were withdrawn: publishes the event with topics
/// `("platform_fees_withdrawn", to)` and data `amount`, and records it in the
/// global event log.
pub fn platform_fees_withdrawn(env: &mut ContractEnv, to: Address, amount: i128)
    requires
        old(env)@.can_record(),
    ensures
        final(env)@ == old(env)@.emitted(
            EventKind::PlatformFeesWithdrawn,
            seq![ValueModel::Address(to@)],
            PayloadModel::Single(ValueModel::I128(amount)),
        ),
{
    let args = vec![Value::Address(to)];
    assert(values_view(args@) =~= seq![ValueModel::Address(to@)]);
    emit(env, EventKind::PlatformFeesWithdrawn, args, Payload::Single(Value::I128(amount)));
}

/// Announces that event fees were withdrawn: publishes the event with topics
/// `("event_fees_withdrawn", admin, to)` and data `amount`, and records it in
/// the global event log.
pub fn event_fees_withdrawn(env: &mut ContractEnv, admin: Address, to: Address, amount: i128)
    requires
        old(env)@.can_record(),
    ensures
        final(env)@ == old(env)@.emitted(
            EventKind::EventFeesWithdrawn,
            seq![ValueModel::Address(admin@), ValueModel::Address(to@)],
            PayloadModel::Single(ValueModel::I128(amount)),
        ),
{
    let args = vec![Value::Address(admin), Value::Address(to)];
    assert(values_view(args@) =~= seq![ValueModel::Address(admin@), ValueModel::Address(to@)]);
    emit(env, EventKind::EventFeesWithdrawn, args, Payload::Single(Value::I128(amount)));
}

/// Announces that an address was blacklisted: publishes the event with topics
/// `("address_blacklisted", admin)` and data `address`, and records it in the
/// global event log.
pub fn address_blacklisted(env: &mut ContractEnv, admin: Address, address: Address)
    requires
        old(env)@.can_record(),
    ensures
        final(env)@ == old(env)@.emitted(
            EventKind::AddressBlacklisted,
            seq![ValueModel::Address(admin@)],
            PayloadModel::Single(ValueModel::Address(address@)),
        ),
{
    let args = vec![Value::Address(admin)];
    assert(values_view(args@) =~= seq![ValueModel::Address(admin@)]);
    emit(env, EventKind::AddressBlacklisted, args, Payload::Single(Value::Address(address)));
}

/// Announces that an address was removed from the blacklist: publishes the
/// event with topics `("address_unblacklisted", admin)` and data `address`, and
/// records it in the global event log.
pub fn address_unblacklisted(env: &mut ContractEnv, admin: Address, address: Address)
    requires
        old(env)@.can_record(),
    ensures
        final(env)@ == old(env)@.emitted(
            EventKind::AddressUnblacklisted,
            seq![ValueModel::Address(admin@)],
            PayloadModel::Single(ValueModel::Address(address@)),
        ),
{
    let args = vec![Value::Address(admin)];
    assert(values_view(args@) =~= seq![ValueModel::Address(admin@)]);
    emit(env, EventKind::AddressUnblacklisted, args, Payload::Single(Value::Address(address)));
}

/// Announces that a pool's metadata was changed: publishes the event with
/// topics `("pool_metadata_updated", pool_id, updater)` and data
/// `new_metadata_hash`, and records it in the global event log.
pub fn pool_metadata_updated(
    env: &mut ContractEnv,
    pool_id: u64,
    updater: Address,
    new_metadata_hash: Text,
)
    requires
        old(env)@.can_record(),
    ensures
        final(env)@ == old(env)@.emitted(
            EventKind::PoolMetadataUpdated,
            seq![ValueModel::U64(pool_id), ValueModel::Address(updater@)],
            PayloadModel::Single(ValueModel::Str(new_metadata_hash@)),
        ),
{
    let args = vec![Value::U64(pool_id), Value::Address(updater)];
    assert(values_view(args@) =~= seq![ValueModel::U64(pool_id), ValueModel::Address(updater@)]);
    emit(env, EventKind::PoolMetadataUpdated, args, Payload::Single(Value::Str(new_metadata_hash)));
}

/// Announces that the platform fee rate was set: publishes the event with
/// topics `("platform_fee_bps_set", admin)` and data `fee_bps`, and records it
/// in the global event log.
pub fn platform_fee_bps_set(env: &mut ContractEnv, admin: Address, fee_bps: u32)
    requires
        old(env)@.can_record(),
    ensures
        final(env)@ == old(env)@.emitted(
            EventKind::PlatformFeeBpsSet,
            seq![ValueModel::Address(admin@)],
            PayloadModel::Single(ValueModel::U32(fee_bps)),
        ),
{
    let args = vec![Value::Address(admin)];
    assert(values_view(args@) =~= seq![ValueModel::Address(admin@)]);
    emit(env, EventKind::PlatformFeeBpsSet, args, Payload::Single(Value::U32(fee_bps)));
}

/// Announces that a ticket was sold: publishes the event with topics
/// `("ticket_sold", pool_id, buyer)` and data `(price, event_amount,
/// fee_amount)`, and records it in the global event log.
pub fn ticket_sold(
    env: &mut ContractEnv,
    pool_id: u64,
    buyer: Address,
    price: i128,
    event_amount: i128,
    fee_amount: i128,
)
    requires
        old(env)@.can_record(),
    ensures
        final(env)@ == old(env)@.emitted(
            EventKind::TicketSold,
            seq![ValueModel::U64(pool_id), ValueModel::Address(buyer@)],
            PayloadModel::Tuple(seq![
                ValueModel::I128(price),
                ValueModel::I128(event_amount),
                ValueModel::I128(fee_amount),
            ]),
        ),
{
    let args = vec![Value::U64(pool_id), Value::Address(buyer)];
    assert(values_view(args@) =~= seq![ValueModel::U64(pool_id), ValueModel::Address(buyer@)]);
    let fields = vec![Value::I128(price), Value::I128(event_amount), Value::I128(fee_amount)];
    assert(values_view(fields@) =~= seq![
        ValueModel::I128(price),
        ValueModel::I128(event_amount),
        ValueModel::I128(fee_amount),
    ]);
    emit(env, EventKind::TicketSold, args, Payload::Tuple(fields));
}

} // verus!
