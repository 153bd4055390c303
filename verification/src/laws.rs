use vstd::prelude::*;
use vstd::utf8::encode_utf8;

use crate::host::{event_model, EnvModel};
use crate::kind::EventKind;
use crate::model::{values_view, PayloadModel, RecordModel, Value, ValueModel};

verus! {

impl EnvModel {
    /// The global event log is consistently numbered: the counter equals the
    /// number of records, and the record at position `i` carries index `i + 1`.
    pub open spec fn log_well_numbered(self) -> bool {
        &&& self.stored_count() == self.stored_records().len()
        &&& forall|i: int|
            0 <= i < self.stored_records().len() ==> #[trigger] self.stored_records()[i].index == i + 1
    }
}

/// One emission: the event's kind, its topic arguments and its data.
pub ghost struct Emission {
    pub kind: EventKind,
    pub args: Seq<ValueModel>,
    pub data: PayloadModel,
}

/// The state after emitting (publishing and recording) each of `es`, in order.
pub open spec fn emit_all(m: EnvModel, es: Seq<Emission>) -> EnvModel
    decreases es.len(),
{
    if es.len() == 0 {
        m
    } else {
        let last = es.last();
        emit_all(m, es.drop_last()).emitted(last.kind, last.args, last.data)
    }
}

/// An empty log (neither storage cell present) is consistently numbered.
pub proof fn lemma_empty_log_well_numbered(m: EnvModel)
    requires
        m.count is None,
        m.records is None,
    ensures
        m.log_well_numbered(),
{
}

/// Recording an event keeps the log consistently numbered, appends exactly
/// one record after the existing ones, and leaves them unchanged.
pub proof fn lemma_record_keeps_numbering(m: EnvModel, name: Seq<u8>)
    requires
        m.log_well_numbered(),
        m.can_record(),
    ensures
        m.after_record(name).log_well_numbered(),
        m.after_record(name).stored_records().len() == m.stored_records().len() + 1,
        m.after_record(name).stored_records().drop_last() == m.stored_records(),
        m.after_record(name).stored_records().last() == (RecordModel {
            index: (m.stored_records().len() + 1) as u64,
            name,
            timestamp: m.timestamp,
        }),
{
    let r = m.after_record(name).stored_records();
    assert(r.drop_last() =~= m.stored_records());
}

/// Publishing an event leaves the event log as it was.
pub proof fn lemma_publish_keeps_log(m: EnvModel, kind: EventKind, args: Seq<ValueModel>, data: PayloadModel)
    ensures
        m.announced(kind, args, data).count == m.count,
        m.announced(kind, args, data).records == m.records,
        m.announced(kind, args, data).published == m.published.push(event_model(kind, args, data)),
{
}

/// A value list's view lists the view of each value, in order.
pub proof fn lemma_values_view_pointwise(vs: Seq<Value>)
    ensures
        values_view(vs).len() == vs.len(),
        forall|i: int| 0 <= i < vs.len() ==> #[trigger] values_view(vs)[i] == vs[i]@,
{
}

/// What an emission publishes and records, field by field: exactly one new
/// event after the earlier ones, whose topics are the kind's name as a
/// symbol followed by exactly the given arguments in the given order, and
/// whose data is exactly the given data; and exactly one new record after the
/// earlier ones, numbered one past the counter, carrying the UTF-8 bytes of
/// the kind's name and the ledger timestamp.
pub proof fn lemma_emitted_event_is_exact(
    m: EnvModel,
    kind: EventKind,
    args: Seq<ValueModel>,
    data: PayloadModel,
)
    requires
        m.can_record(),
    ensures
        ({
            let n = m.emitted(kind, args, data);
            let e = n.published.last();
            &&& n.timestamp == m.timestamp
            &&& n.published.len() == m.published.len() + 1
            &&& forall|i: int| 0 <= i < m.published.len() ==> #[trigger] n.published[i] == m.published[i]
            &&& e.topics.len() == args.len() + 1
            &&& e.topics[0] == ValueModel::Symbol(kind.spec_name())
            &&& forall|i: int| 0 <= i < args.len() ==> #[trigger] e.topics[i + 1] == args[i]
            &&& e.data == data
            &&& n.stored_count() == m.stored_count() + 1
            &&& n.stored_records().len() == m.stored_records().len() + 1
            &&& forall|i: int|
                0 <= i < m.stored_records().len() ==> #[trigger] n.stored_records()[i]
                    == m.stored_records()[i]
            &&& n.stored_records().last().index == m.stored_count() + 1
            &&& n.stored_records().last().name == encode_utf8(kind.spec_name())
            &&& n.stored_records().last().timestamp == m.timestamp
        }),
{
}

/// Every emission keeps the log consistently numbered, and the record it
/// appends names the symbol that opens the event it publishes.
pub proof fn lemma_emit_keeps_numbering(m: EnvModel, kind: EventKind, args: Seq<ValueModel>, data: PayloadModel)
    requires
        m.log_well_numbered(),
        m.can_record(),
    ensures
        m.emitted(kind, args, data).log_well_numbered(),
        m.emitted(kind, args, data).published.last().topics[0] == ValueModel::Symbol(kind.spec_name()),
        m.emitted(kind, args, data).stored_records().last().name == encode_utf8(kind.spec_name()),
{
    lemma_record_keeps_numbering(m.announced(kind, args, data), kind.spec_name_bytes());
}

/// Emitting a series of events onto a consistently numbered log publishes
/// them in order and appends one record per event, in the same order,
/// numbered on from the counter, each carrying its event's name and the
/// ledger timestamp; the counter ends at the number of records.
pub proof fn lemma_emit_all(m: EnvModel, es: Seq<Emission>)
    requires
        m.log_well_numbered(),
        m.stored_count() + es.len() <= u64::MAX,
    ensures
        emit_all(m, es).log_well_numbered(),
        emit_all(m, es).stored_count() == m.stored_count() + es.len(),
        emit_all(m, es).timestamp == m.timestamp,
        emit_all(m, es).stored_records() == m.stored_records() + Seq::new(
            es.len(),
            |i: int|
                RecordModel {
                    index: (m.stored_count() + i + 1) as u64,
                    name: es[i].kind.spec_name_bytes(),
                    timestamp: m.timestamp,
                },
        ),
        emit_all(m, es).published == m.published + Seq::new(
            es.len(),
            |i: int| event_model(es[i].kind, es[i].args, es[i].data),
        ),
    decreases es.len(),
{
    if es.len() > 0 {
        let prefix = es.drop_last();
        let last = es.last();
        lemma_emit_all(m, prefix);
        let mid = emit_all(m, prefix);
        lemma_emit_keeps_numbering(mid, last.kind, last.args, last.data);
        assert(emit_all(m, es).stored_records() =~= m.stored_records() + Seq::new(
            es.len(),
            |i: int|
                RecordModel {
                    index: (m.stored_count() + i + 1) as u64,
                    name: es[i].kind.spec_name_bytes(),
                    timestamp: m.timestamp,
                },
        ));
        assert(emit_all(m, es).published =~= m.published + Seq::new(
            es.len(),
            |i: int| event_model(es[i].kind, es[i].args, es[i].data),
        ));
    } else {
        assert(m.stored_records() + Seq::<RecordModel>::empty() =~= m.stored_records());
        assert(m.published + Seq::empty() =~= m.published);
    }
}

} // verus!
