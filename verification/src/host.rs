use vstd::prelude::*;
use vstd::string::StringSliceAdditionalSpecFns;

use crate::kind::EventKind;
use crate::model::{
    records_view, values_view, ContractEvent, EventModel, EventRecord, Payload, PayloadModel,
    RecordModel, Value, ValueModel,
};

verus! {

/// What persistent storage holds of the global event log: the counter
/// (`AllEventsCount`) and the list of records (`AllEvents`).  Either cell
/// may be absent before the first event is recorded.
#[derive(Clone, Debug, PartialEq, Eq)]
pub struct EventLog {
    pub count: Option<u64>,
    pub records: Option<Vec<EventRecord>>,
}

/// The part of the contract host that the emitters use: the ledger's
/// timestamp, the event log in persistent storage, and the events
/// published so far in this invocation, oldest first.
#[derive(Clone, Debug, PartialEq, Eq)]
pub struct ContractEnv {
    pub ledger_timestamp: u64,
    pub log: EventLog,
    pub published: Vec<ContractEvent>,
}

pub ghost struct EnvModel {
    pub timestamp: u64,
    pub count: Option<u64>,
    pub records: Option<Seq<RecordModel>>,
    pub published: Seq<EventModel>,
}

pub open spec fn events_view(es: Seq<ContractEvent>) -> Seq<EventModel> {
    es.map_values(|e: ContractEvent| e@)
}

/// The event of `kind` whose topics are the kind's name, as a symbol,
/// followed by `args`, and whose data is `data`.
pub open spec fn event_model(kind: EventKind, args: Seq<ValueModel>, data: PayloadModel) -> EventModel {
    EventModel { topics: seq![ValueModel::Symbol(kind.spec_name())] + args, data }
}

impl View for ContractEnv {
    type V = EnvModel;

    open spec fn view(&self) -> EnvModel {
        EnvModel {
            timestamp: self.ledger_timestamp,
            count: self.log.count,
            records: match self.log.records {
                Some(rs) => Some(records_view(rs@)),
                None => None,
            },
            published: events_view(self.published@),
        }
    }
}

impl EnvModel {
    /// The counter as the emitters read it: an absent counter reads as 0.
    pub open spec fn stored_count(self) -> nat {
        match self.count {
            Some(c) => c as nat,
            None => 0,
        }
    }

    /// The record list as the emitters read it: an absent list reads as empty.
    pub open spec fn stored_records(self) -> Seq<RecordModel> {
        match self.records {
            Some(rs) => rs,
            None => Seq::empty(),
        }
    }

    /// Whether one more record can be numbered without overflowing the counter.
    pub open spec fn can_record(self) -> bool {
        self.stored_count() < u64::MAX
    }

    /// The state after recording an event named `name`: the counter goes up
    /// by one and a record carrying the new counter value, the name and the
    /// ledger timestamp is appended to the list.
    pub open spec fn after_record(self, name: Seq<u8>) -> EnvModel {
        let index = (self.stored_count() + 1) as u64;
        EnvModel {
            count: Some(index),
            records: Some(
                self.stored_records().push(
                    RecordModel { index, name, timestamp: self.timestamp },
                ),
            ),
            ..self
        }
    }

    /// The state after publishing `event`.
    pub open spec fn after_publish(self, event: EventModel) -> EnvModel {
        EnvModel { published: self.published.push(event), ..self }
    }

    /// The state after publishing an event of `kind` whose topics are the
    /// kind's name followed by `args`, with data `data`.
    pub open spec fn announced(self, kind: EventKind, args: Seq<ValueModel>, data: PayloadModel) -> EnvModel {
        self.after_publish(event_model(kind, args, data))
    }

    /// The state after publishing that event and recording it, under the
    /// kind's name, in the global event log.
    pub open spec fn emitted(self, kind: EventKind, args: Seq<ValueModel>, data: PayloadModel) -> EnvModel {
        self.announced(kind, args, data).after_record(kind.spec_name_bytes())
    }
}

impl ContractEnv {
    /// A host state with the given ledger timestamp, an empty event log
    /// (neither storage cell present) and nothing published yet.
    pub fn new(ledger_timestamp: u64) -> (env: ContractEnv)
        ensures
            env@ == (EnvModel {
                timestamp: ledger_timestamp,
                count: None,
                records: None,
                published: Seq::empty(),
            }),
    {
        let env = ContractEnv {
            ledger_timestamp,
            log: EventLog { count: None, records: None },
            published: Vec::new(),
        };
        assert(env@.published =~= Seq::<EventModel>::empty());
        env
    }

    /// Whether one more event can be recorded: the stored counter is below
    /// `u64::MAX`.
    pub fn can_record(&self) -> (ok: bool)
        ensures
            ok == self@.can_record(),
    {
        match self.log.count {
            Some(c) => c < u64::MAX,
            None => true,
        }
    }
}

/// Increments the persistent event counter (an absent counter counts as 0)
/// and appends a record with the new counter value, `name` and the ledger
/// timestamp to the global event list (an absent list counts as empty).
pub fn record_event(env: &mut ContractEnv, name: &str)
    requires
        old(env)@.can_record(),
    ensures
        final(env)@ == old(env)@.after_record(name.spec_bytes()),
        final(env)@.timestamp == old(env)@.timestamp,
        final(env)@.published == old(env)@.published,
        final(env)@.count == Some((old(env)@.stored_count() + 1) as u64),
        final(env)@.stored_records().len() == old(env)@.stored_records().len() + 1,
        forall|i: int|
            0 <= i < old(env)@.stored_records().len() ==> #[trigger] final(env)@.stored_records()[i]
                == old(env)@.stored_records()[i],
        final(env)@.stored_records().last() == (RecordModel {
            index: (old(env)@.stored_count() + 1) as u64,
            name: name.spec_bytes(),
            timestamp: old(env)@.timestamp,
        }),
{
    let new_index: u64 = match env.log.count {
        Some(c) => c + 1,
        None => 1,
    };
    env.log.count = Some(new_index);

    let mut list: Vec<EventRecord> = match env.log.records.take() {
        Some(rs) => rs,
        None => Vec::new(),
    };
    let ghost old_list = list@;
    assert(records_view(old_list) == old(env)@.stored_records());
    let name_bytes: Vec<u8> = vstd::slice::slice_to_vec(name.as_bytes());
    list.push(EventRecord { index: new_index, name: name_bytes, timestamp: env.ledger_timestamp });
    assert(records_view(list@) =~= records_view(old_list).push(
        RecordModel { index: new_index, name: name.spec_bytes(), timestamp: env.ledger_timestamp },
    ));
    env.log.records = Some(list);
}

/// Publishes `event`: it is appended to the events of this invocation.
pub fn publish(env: &mut ContractEnv, event: ContractEvent)
    ensures
        final(env)@ == old(env)@.after_publish(event@),
        final(env)@.timestamp == old(env)@.timestamp,
        final(env)@.count == old(env)@.count,
        final(env)@.records == old(env)@.records,
        final(env)@.published.len() == old(env)@.published.len() + 1,
        forall|i: int|
            0 <= i < old(env)@.published.len() ==> #[trigger] final(env)@.published[i]
                == old(env)@.published[i],
        final(env)@.published.last() == event@,
{
    let ghost old_published = env.published@;
    env.published.push(event);
    assert(events_view(env.published@) =~= events_view(old_published).push(event@));
}

/// Builds the event of `kind` with topic arguments `args` and data `data`.
pub fn make_event(kind: EventKind, args: Vec<Value>, data: Payload) -> (event: ContractEvent)
    ensures
        event@ == event_model(kind, values_view(args@), data@),
        event.topics@.len() == args@.len() + 1,
        event.topics@[0]@ == ValueModel::Symbol(kind.spec_name()),
        forall|i: int| 0 <= i < args@.len() ==> #[trigger] event.topics@[i + 1]@ == args@[i]@,
        event.data == data,
{
    let mut topics: Vec<Value> = Vec::new();
    topics.push(Value::Symbol(kind.name().to_owned()));
    let mut rest = args;
    topics.append(&mut rest);
    assert(values_view(topics@) =~= seq![ValueModel::Symbol(kind.spec_name())] + values_view(args@));
    ContractEvent { topics, data }
}

/// Publishes the event of `kind` with topic arguments `args` and data
/// `data`, then records it in the global event log.
pub fn emit(env: &mut ContractEnv, kind: EventKind, args: Vec<Value>, data: Payload)
    requires
        old(env)@.can_record(),
    ensures
        final(env)@ == old(env)@.emitted(kind, values_view(args@), data@),
        final(env)@.timestamp == old(env)@.timestamp,
        final(env)@.published.len() == old(env)@.published.len() + 1,
        final(env)@.published.drop_last() == old(env)@.published,
        final(env)@.published.last().topics.len() == args@.len() + 1,
        final(env)@.published.last().topics[0] == ValueModel::Symbol(kind.spec_name()),
        forall|i: int|
            0 <= i < args@.len() ==> #[trigger] final(env)@.published.last().topics[i + 1]
                == args@[i]@,
        final(env)@.published.last().data == data@,
        final(env)@.count == Some((old(env)@.stored_count() + 1) as u64),
        final(env)@.stored_records() == old(env)@.stored_records().push(
            RecordModel {
                index: (old(env)@.stored_count() + 1) as u64,
                name: kind.spec_name_bytes(),
                timestamp: old(env)@.timestamp,
            },
        ),
{
    publish(env, make_event(kind, args, data));
    record_event(env, kind.name());
}

} // verus!
