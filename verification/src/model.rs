use vstd::prelude::*;

verus! {

/// A Stellar account or contract address, held as its strkey text
/// (`G...` or `C...`).
#[derive(Clone, Debug, PartialEq, Eq)]
pub struct Address {
    pub strkey: String,
}

impl View for Address {
    type V = Seq<char>;

    open spec fn view(&self) -> Seq<char> {
        self.strkey@
    }
}

/// The contents of a contract string: its bytes, which need not be UTF-8.
pub type Text = Vec<u8>;

/// Lifecycle state of a pool, as carried by `pool_state_updated` events.
#[derive(Clone, Copy, Debug, PartialEq, Eq)]
pub enum PoolState {
    Active,
    Paused,
    Completed,
    Cancelled,
}

/// One value of an event's topics or data.
#[derive(Clone, Debug, PartialEq, Eq)]
pub enum Value {
    Symbol(String),
    Bytes32([u8; 32]),
    Address(Address),
    Str(Text),
    I128(i128),
    U64(u64),
    U32(u32),
    Bool(bool),
    PoolState(PoolState),
}

/// Mathematical counterpart of [`Value`].
pub ghost enum ValueModel {
    Symbol(Seq<char>),
    Bytes32([u8; 32]),
    Address(Seq<char>),
    Str(Seq<u8>),
    I128(i128),
    U64(u64),
    U32(u32),
    Bool(bool),
    PoolState(PoolState),
}

impl View for Value {
    type V = ValueModel;

    open spec fn view(&self) -> ValueModel {
        match self {
            Value::Symbol(s) => ValueModel::Symbol(s@),
            Value::Bytes32(b) => ValueModel::Bytes32(*b),
            Value::Address(a) => ValueModel::Address(a@),
            Value::Str(s) => ValueModel::Str(s@),
            Value::I128(v) => ValueModel::I128(*v),
            Value::U64(v) => ValueModel::U64(*v),
            Value::U32(v) => ValueModel::U32(*v),
            Value::Bool(v) => ValueModel::Bool(*v),
            Value::PoolState(v) => ValueModel::PoolState(*v),
        }
    }
}

/// The data part of an event: nothing, a single value, or a tuple of values.
#[derive(Clone, Debug, PartialEq, Eq)]
pub enum Payload {
    Unit,
    Single(Value),
    Tuple(Vec<Value>),
}

pub ghost enum PayloadModel {
    Unit,
    Single(ValueModel),
    Tuple(Seq<ValueModel>),
}

pub open spec fn values_view(vs: Seq<Value>) -> Seq<ValueModel> {
    vs.map_values(|v: Value| v@)
}

impl View for Payload {
    type V = PayloadModel;

    open spec fn view(&self) -> PayloadModel {
        match self {
            Payload::Unit => PayloadModel::Unit,
            Payload::Single(v) => PayloadModel::Single(v@),
            Payload::Tuple(vs) => PayloadModel::Tuple(values_view(vs@)),
        }
    }
}

/// A published contract event: its topics (the first one is the event's
/// name as a symbol) and its data.
#[derive(Clone, Debug, PartialEq, Eq)]
pub struct ContractEvent {
    pub topics: Vec<Value>,
    pub data: Payload,
}

pub ghost struct EventModel {
    pub topics: Seq<ValueModel>,
    pub data: PayloadModel,
}

impl View for ContractEvent {
    type V = EventModel;

    open spec fn view(&self) -> EventModel {
        EventModel { topics: values_view(self.topics@), data: self.data@ }
    }
}

/// One entry of the global event log.
#[derive(Clone, Debug, PartialEq, Eq)]
pub struct EventRecord {
    pub index: u64,
    pub name: Text,
    pub timestamp: u64,
}

pub ghost struct RecordModel {
    pub index: u64,
    pub name: Seq<u8>,
    pub timestamp: u64,
}

impl View for EventRecord {
    type V = RecordModel;

    open spec fn view(&self) -> RecordModel {
        RecordModel { index: self.index, name: self.name@, timestamp: self.timestamp }
    }
}

pub open spec fn records_view(rs: Seq<EventRecord>) -> Seq<RecordModel> {
    rs.map_values(|r: EventRecord| r@)
}

} // verus!
