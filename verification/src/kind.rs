use vstd::prelude::*;
use vstd::utf8::{encode_utf8, is_ascii_chars, is_ascii_chars_encode_utf8};

verus! {

/// The kinds of events the contract publishes.  Each kind's name is the
/// symbol that opens the event's topics and, for recorded kinds, the name
/// stored in the global event log.
#[derive(Clone, Copy, Debug, PartialEq, Eq)]
pub enum EventKind {
    CampaignCreated,
    CampaignGoalUpdated,
    PoolCreated,
    EventCreated,
    PoolStateUpdated,
    ContractPaused,
    ContractUnpaused,
    AdminRenounced,
    EmergencyContactUpdated,
    DonationMade,
    CampaignCancelled,
    CampaignRefunded,
    Contribution,
    EmergencyWithdrawRequested,
    EmergencyWithdrawExecuted,
    CrowdfundingTokenSet,
    CreationFeeSet,
    CreationFeePaid,
    Refund,
    PoolClosed,
    PlatformFeesWithdrawn,
    EventFeesWithdrawn,
    AddressBlacklisted,
    AddressUnblacklisted,
    PoolMetadataUpdated,
    PlatformFeeBpsSet,
    TicketSold,
}

impl EventKind {
    /// The event's name.
    pub open spec fn spec_name(self) -> Seq<char> {
        match self {
            EventKind::CampaignCreated => "campaign_created"@,
            EventKind::CampaignGoalUpdated => "campaign_goal_updated"@,
            EventKind::PoolCreated => "pool_created"@,
            EventKind::EventCreated => "event_created"@,
            EventKind::PoolStateUpdated => "pool_state_updated"@,
            EventKind::ContractPaused => "contract_paused"@,
            EventKind::ContractUnpaused => "contract_unpaused"@,
            EventKind::AdminRenounced => "admin_renounced"@,
            EventKind::EmergencyContactUpdated => "emergency_contact_updated"@,
            EventKind::DonationMade => "donation_made"@,
            EventKind::CampaignCancelled => "campaign_cancelled"@,
            EventKind::CampaignRefunded => "campaign_refunded"@,
            EventKind::Contribution => "contribution"@,
            EventKind::EmergencyWithdrawRequested => "emergency_withdraw_requested"@,
            EventKind::EmergencyWithdrawExecuted => "emergency_withdraw_executed"@,
            EventKind::CrowdfundingTokenSet => "crowdfunding_token_set"@,
            EventKind::CreationFeeSet => "creation_fee_set"@,
            EventKind::CreationFeePaid => "creation_fee_paid"@,
            EventKind::Refund => "refund"@,
            EventKind::PoolClosed => "pool_closed"@,
            EventKind::PlatformFeesWithdrawn => "platform_fees_withdrawn"@,
            EventKind::EventFeesWithdrawn => "event_fees_withdrawn"@,
            EventKind::AddressBlacklisted => "address_blacklisted"@,
            EventKind::AddressUnblacklisted => "address_unblacklisted"@,
            EventKind::PoolMetadataUpdated => "pool_metadata_updated"@,
            EventKind::PlatformFeeBpsSet => "platform_fee_bps_set"@,
            EventKind::TicketSold => "ticket_sold"@,
        }
    }

    /// The bytes of the event's name, as stored in the global event log.
    pub open spec fn spec_name_bytes(self) -> Seq<u8> {
        encode_utf8(self.spec_name())
    }

    /// The event's name, as published in the first topic.
    pub fn name(self) -> (name: &'static str)
        ensures
            name@ == self.spec_name(),
    {
        match self {
            EventKind::CampaignCreated => "campaign_created",
            EventKind::CampaignGoalUpdated => "campaign_goal_updated",
            EventKind::PoolCreated => "pool_created",
            EventKind::EventCreated => "event_created",
            EventKind::PoolStateUpdated => "pool_state_updated",
            EventKind::ContractPaused => "contract_paused",
            EventKind::ContractUnpaused => "contract_unpaused",
            EventKind::AdminRenounced => "admin_renounced",
            EventKind::EmergencyContactUpdated => "emergency_contact_updated",
            EventKind::DonationMade => "donation_made",
            EventKind::CampaignCancelled => "campaign_cancelled",
            EventKind::CampaignRefunded => "campaign_refunded",
            EventKind::Contribution => "contribution",
            EventKind::EmergencyWithdrawRequested => "emergency_withdraw_requested",
            EventKind::EmergencyWithdrawExecuted => "emergency_withdraw_executed",
            EventKind::CrowdfundingTokenSet => "crowdfunding_token_set",
            EventKind::CreationFeeSet => "creation_fee_set",
            EventKind::CreationFeePaid => "creation_fee_paid",
            EventKind::Refund => "refund",
            EventKind::PoolClosed => "pool_closed",
            EventKind::PlatformFeesWithdrawn => "platform_fees_withdrawn",
            EventKind::EventFeesWithdrawn => "event_fees_withdrawn",
            EventKind::AddressBlacklisted => "address_blacklisted",
            EventKind::AddressUnblacklisted => "address_unblacklisted",
            EventKind::PoolMetadataUpdated => "pool_metadata_updated",
            EventKind::PlatformFeeBpsSet => "platform_fee_bps_set",
            EventKind::TicketSold => "ticket_sold",
        }
    }
}

/// A character that a Soroban symbol may hold: `a-z`, `A-Z`, `0-9` or `_`.
pub open spec fn is_symbol_char(c: char) -> bool {
    ||| ('a' <= c && c <= 'z')
    ||| ('A' <= c && c <= 'Z')
    ||| ('0' <= c && c <= '9')
    ||| c == '_'
}

/// A text that a Soroban symbol can hold: at most 32 symbol characters.
pub open spec fn is_valid_symbol(s: Seq<char>) -> bool {
    &&& s.len() <= 32
    &&& forall|i: int| 0 <= i < s.len() ==> is_symbol_char(#[trigger] s[i])
}

/// Every event name is a valid Soroban symbol, so turning it into the
/// event's first topic never fails.
pub proof fn lemma_event_names_are_symbols(kind: EventKind)
    ensures
        is_valid_symbol(kind.spec_name()),
{
    match kind {
        EventKind::CampaignCreated => {
            reveal_strlit("campaign_created");
        },
        EventKind::CampaignGoalUpdated => {
            reveal_strlit("campaign_goal_updated");
        },
        EventKind::PoolCreated => {
            reveal_strlit("pool_created");
        },
        EventKind::EventCreated => {
            reveal_strlit("event_created");
        },
        EventKind::PoolStateUpdated => {
            reveal_strlit("pool_state_updated");
        },
        EventKind::ContractPaused => {
            reveal_strlit("contract_paused");
        },
        EventKind::ContractUnpaused => {
            reveal_strlit("contract_unpaused");
        },
        EventKind::AdminRenounced => {
            reveal_strlit("admin_renounced");
        },
        EventKind::EmergencyContactUpdated => {
            reveal_strlit("emergency_contact_updated");
        },
        EventKind::DonationMade => {
            reveal_strlit("donation_made");
        },
        EventKind::CampaignCancelled => {
            reveal_strlit("campaign_cancelled");
        },
        EventKind::CampaignRefunded => {
            reveal_strlit("campaign_refunded");
        },
        EventKind::Contribution => {
            reveal_strlit("contribution");
        },
        EventKind::EmergencyWithdrawRequested => {
            reveal_strlit("emergency_withdraw_requested");
        },
        EventKind::EmergencyWithdrawExecuted => {
            reveal_strlit("emergency_withdraw_executed");
        },
        EventKind::CrowdfundingTokenSet => {
            reveal_strlit("crowdfunding_token_set");
        },
        EventKind::CreationFeeSet => {
            reveal_strlit("creation_fee_set");
        },
        EventKind::CreationFeePaid => {
            reveal_strlit("creation_fee_paid");
        },
        EventKind::Refund => {
            reveal_strlit("refund");
        },
        EventKind::PoolClosed => {
            reveal_strlit("pool_closed");
        },
        EventKind::PlatformFeesWithdrawn => {
            reveal_strlit("platform_fees_withdrawn");
        },
        EventKind::EventFeesWithdrawn => {
            reveal_strlit("event_fees_withdrawn");
        },
        EventKind::AddressBlacklisted => {
            reveal_strlit("address_blacklisted");
        },
        EventKind::AddressUnblacklisted => {
            reveal_strlit("address_unblacklisted");
        },
        EventKind::PoolMetadataUpdated => {
            reveal_strlit("pool_metadata_updated");
        },
        EventKind::PlatformFeeBpsSet => {
            reveal_strlit("platform_fee_bps_set");
        },
        EventKind::TicketSold => {
            reveal_strlit("ticket_sold");
        },
    }
}


/// The stored name of every event is the plain ASCII spelling of its
/// symbol: one byte per character, each byte the character's code.
pub proof fn lemma_event_name_bytes_are_ascii(kind: EventKind)
    ensures
        kind.spec_name_bytes().len() == kind.spec_name().len(),
        forall|i: int|
            0 <= i < kind.spec_name().len() ==> #[trigger] kind.spec_name_bytes()[i] == kind.spec_name()[i] as u8,
{
    lemma_event_names_are_symbols(kind);
    let s = kind.spec_name();
    assert(is_ascii_chars(s)) by {
        assert forall|i: int| 0 <= i < s.len() implies '\0' <= #[trigger] s[i] <= '\u{7f}' by {
            assert(is_symbol_char(s[i]));
        }
    }
    is_ascii_chars_encode_utf8(s);
}

/// The kind whose name is `s`, if any: the names are told apart first by
/// their length, then by their spelling.
pub open spec fn kind_named(s: Seq<char>) -> Option<EventKind> {
    if s.len() == 6 {
        if s == "refund"@ {
            Some(EventKind::Refund)
        } else {
            None
        }
    } else if s.len() == 11 {
        if s == "pool_closed"@ {
            Some(EventKind::PoolClosed)
        } else if s == "ticket_sold"@ {
            Some(EventKind::TicketSold)
        } else {
            None
        }
    } else if s.len() == 12 {
        if s == "pool_created"@ {
            Some(EventKind::PoolCreated)
        } else if s == "contribution"@ {
            Some(EventKind::Contribution)
        } else {
            None
        }
    } else if s.len() == 13 {
        if s == "event_created"@ {
            Some(EventKind::EventCreated)
        } else if s == "donation_made"@ {
            Some(EventKind::DonationMade)
        } else {
            None
        }
    } else if s.len() == 15 {
        if s == "contract_paused"@ {
            Some(EventKind::ContractPaused)
        } else if s == "admin_renounced"@ {
            Some(EventKind::AdminRenounced)
        } else {
            None
        }
    } else if s.len() == 16 {
        if s == "campaign_created"@ {
            Some(EventKind::CampaignCreated)
        } else if s == "creation_fee_set"@ {
            Some(EventKind::CreationFeeSet)
        } else {
            None
        }
    } else if s.len() == 17 {
        if s == "contract_unpaused"@ {
            Some(EventKind::ContractUnpaused)
        } else if s == "campaign_refunded"@ {
            Some(EventKind::CampaignRefunded)
        } else if s == "creation_fee_paid"@ {
            Some(EventKind::CreationFeePaid)
        } else {
            None
        }
    } else if s.len() == 18 {
        if s == "pool_state_updated"@ {
            Some(EventKind::PoolStateUpdated)
        } else if s == "campaign_cancelled"@ {
            Some(EventKind::CampaignCancelled)
        } else {
            None
        }
    } else if s.len() == 19 {
        if s == "address_blacklisted"@ {
            Some(EventKind::AddressBlacklisted)
        } else {
            None
        }
    } else if s.len() == 20 {
        if s == "event_fees_withdrawn"@ {
            Some(EventKind::EventFeesWithdrawn)
        } else if s == "platform_fee_bps_set"@ {
            Some(EventKind::PlatformFeeBpsSet)
        } else {
            None
        }
    } else if s.len() == 21 {
        if s == "campaign_goal_updated"@ {
            Some(EventKind::CampaignGoalUpdated)
        } else if s == "address_unblacklisted"@ {
            Some(EventKind::AddressUnblacklisted)
        } else if s == "pool_metadata_updated"@ {
            Some(EventKind::PoolMetadataUpdated)
        } else {
            None
        }
    } else if s.len() == 22 {
        if s == "crowdfunding_token_set"@ {
            Some(EventKind::CrowdfundingTokenSet)
        } else {
            None
        }
    } else if s.len() == 23 {
        if s == "platform_fees_withdrawn"@ {
            Some(EventKind::PlatformFeesWithdrawn)
        } else {
            None
        }
    } else if s.len() == 25 {
        if s == "emergency_contact_updated"@ {
            Some(EventKind::EmergencyContactUpdated)
        } else {
            None
        }
    } else if s.len() == 27 {
        if s == "emergency_withdraw_executed"@ {
            Some(EventKind::EmergencyWithdrawExecuted)
        } else {
            None
        }
    } else if s.len() == 28 {
        if s == "emergency_withdraw_requested"@ {
            Some(EventKind::EmergencyWithdrawRequested)
        } else {
            None
        }
    } else {
        None
    }
}

/// An event's name identifies its kind: the name of every kind reads back
/// as that kind, so no two kinds share a name.
pub proof fn lemma_event_names_identify_kinds(kind: EventKind)
    ensures
        kind_named(kind.spec_name()) == Some(kind),
{
    // Each name fixes its length; a name of the same length tested before it
    // differs at the position given.
    match kind {
        EventKind::CampaignCreated => {
            reveal_strlit("campaign_created");
        },
        EventKind::CampaignGoalUpdated => {
            reveal_strlit("campaign_goal_updated");
        },
        EventKind::PoolCreated => {
            reveal_strlit("pool_created");
        },
        EventKind::EventCreated => {
            reveal_strlit("event_created");
        },
        EventKind::PoolStateUpdated => {
            reveal_strlit("pool_state_updated");
        },
        EventKind::ContractPaused => {
            reveal_strlit("contract_paused");
        },
        EventKind::ContractUnpaused => {
            reveal_strlit("contract_unpaused");
        },
        EventKind::AdminRenounced => {
            reveal_strlit("admin_renounced");
            reveal_strlit("contract_paused");
            assert("admin_renounced"@[0] != "contract_paused"@[0]);
        },
        EventKind::EmergencyContactUpdated => {
            reveal_strlit("emergency_contact_updated");
        },
        EventKind::DonationMade => {
            reveal_strlit("donation_made");
            reveal_strlit("event_created");
            assert("donation_made"@[0] != "event_created"@[0]);
        },
        EventKind::CampaignCancelled => {
            reveal_strlit("campaign_cancelled");
            reveal_strlit("pool_state_updated");
            assert("campaign_cancelled"@[0] != "pool_state_updated"@[0]);
        },
        EventKind::CampaignRefunded => {
            reveal_strlit("campaign_refunded");
            reveal_strlit("contract_unpaused");
            assert("campaign_refunded"@[1] != "contract_unpaused"@[1]);
        },
        EventKind::Contribution => {
            reveal_strlit("contribution");
            reveal_strlit("pool_created");
            assert("contribution"@[0] != "pool_created"@[0]);
        },
        EventKind::EmergencyWithdrawRequested => {
            reveal_strlit("emergency_withdraw_requested");
        },
        EventKind::EmergencyWithdrawExecuted => {
            reveal_strlit("emergency_withdraw_executed");
        },
        EventKind::CrowdfundingTokenSet => {
            reveal_strlit("crowdfunding_token_set");
        },
        EventKind::CreationFeeSet => {
            reveal_strlit("creation_fee_set");
            reveal_strlit("campaign_created");
            assert("creation_fee_set"@[1] != "campaign_created"@[1]);
        },
        EventKind::CreationFeePaid => {
            reveal_strlit("creation_fee_paid");
            reveal_strlit("contract_unpaused");
            assert("creation_fee_paid"@[1] != "contract_unpaused"@[1]);
            reveal_strlit("campaign_refunded");
            assert("creation_fee_paid"@[1] != "campaign_refunded"@[1]);
        },
        EventKind::Refund => {
            reveal_strlit("refund");
        },
        EventKind::PoolClosed => {
            reveal_strlit("pool_closed");
        },
        EventKind::PlatformFeesWithdrawn => {
            reveal_strlit("platform_fees_withdrawn");
        },
        EventKind::EventFeesWithdrawn => {
            reveal_strlit("event_fees_withdrawn");
        },
        EventKind::AddressBlacklisted => {
            reveal_strlit("address_blacklisted");
        },
        EventKind::AddressUnblacklisted => {
            reveal_strlit("address_unblacklisted");
            reveal_strlit("campaign_goal_updated");
            assert("address_unblacklisted"@[0] != "campaign_goal_updated"@[0]);
        },
        EventKind::PoolMetadataUpdated => {
            reveal_strlit("pool_metadata_updated");
            reveal_strlit("campaign_goal_updated");
            assert("pool_metadata_updated"@[0] != "campaign_goal_updated"@[0]);
            reveal_strlit("address_unblacklisted");
            assert("pool_metadata_updated"@[0] != "address_unblacklisted"@[0]);
        },
        EventKind::PlatformFeeBpsSet => {
            reveal_strlit("platform_fee_bps_set");
            reveal_strlit("event_fees_withdrawn");
            assert("platform_fee_bps_set"@[0] != "event_fees_withdrawn"@[0]);
        },
        EventKind::TicketSold => {
            reveal_strlit("ticket_sold");
            reveal_strlit("pool_closed");
            assert("ticket_sold"@[0] != "pool_closed"@[0]);
        },
    }
}

/// Two different kinds never share a name.
pub proof fn lemma_event_names_distinct(a: EventKind, b: EventKind)
    requires
        a != b,
    ensures
        a.spec_name() != b.spec_name(),
{
    lemma_event_names_identify_kinds(a);
    lemma_event_names_identify_kinds(b);
}

} // verus!
