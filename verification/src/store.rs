use crate::model::{slot_model, slot_ok, AnyValue, FieldValue, ListItem, SlotModel};
use vstd::prelude::*;

verus! {

#[verifier::external_type_specification]
#[verifier::external_body]
pub struct ExAny(yrs::Any);

/// The externally supplied replicated-sequence engine: one yrs document
/// holding one root array, named "tasks", of structured values. The engine is
/// opaque to verification; every access goes through the trusted operations
/// below, whose contracts speak of the sequence's abstract contents,
/// `store_view`.
#[verifier::external_body]
pub struct Store {
    doc: yrs::Doc,
    tasks: yrs::ArrayRef,
}

/// The abstract contents of the store's replicated sequence: its elements in
/// order, each abstracted to its `SlotModel` image.
pub uninterp spec fn store_view(s: &Store) -> Seq<SlotModel>;

/// Whether a byte string decodes as a v1 update message: what
/// yrs::updates::decoder::Decode::decode_v1 accepts, a function of the bytes
/// alone.
pub uninterp spec fn decodes_v1(bytes: Seq<u8>) -> bool;

/// Converts one yrs value into the fragment of it that the document reads:
/// strings, booleans and integers are kept (a floating-point number is
/// truncated to an integer, the only way the document reads one), a list keeps
/// its strings item by item, and every other variant is opaque. Relies on the
/// variants of yrs::Any.
#[verifier::external_body]
fn field_of_any(a: &yrs::Any) -> FieldValue {
    match a {
        yrs::Any::String(s) => FieldValue::Text(s.to_string()),
        yrs::Any::Bool(b) => FieldValue::Flag(*b),
        yrs::Any::Number(yrs::Number::Int(n)) => FieldValue::Int(*n),
        yrs::Any::Number(yrs::Number::Float(x)) => FieldValue::Int(*x as i64),
        yrs::Any::Array(items) => FieldValue::Items(
            items.iter().map(
                |it| match it {
                    yrs::Any::String(s) => ListItem::Text(s.to_string()),
                    _ => ListItem::Opaque,
                },
            ).collect(),
        ),
        _ => FieldValue::Opaque,
    }
}

/// Converts one library field value into the yrs value stored for it. An
/// opaque fragment, which reads back as opaque, is stored as null, which reads
/// back the same way. Relies on the variants of yrs::Any.
#[verifier::external_body]
fn any_of_field(v: FieldValue) -> yrs::Any {
    match v {
        FieldValue::Text(s) => yrs::Any::String(s.into()),
        FieldValue::Flag(b) => yrs::Any::Bool(b),
        FieldValue::Int(n) => yrs::Any::Number(yrs::Number::Int(n)),
        FieldValue::Items(items) => yrs::Any::Array(
            items.into_iter().map(
                |it| match it {
                    ListItem::Text(s) => yrs::Any::String(s.into()),
                    ListItem::Opaque => yrs::Any::Null,
                },
            ).collect::<Vec<yrs::Any>>().into(),
        ),
        FieldValue::Opaque => yrs::Any::Null,
    }
}

/// Converts one library sequence element into the yrs value stored for it: a
/// field map becomes a yrs map with the same pairs, anything else is stored as
/// null, which reads back as opaque. Relies on yrs::Any::Map binding each key
/// once, which is why a stored field map must have unique keys.
#[verifier::external_body]
fn any_of_slot(v: AnyValue) -> yrs::Any {
    match v {
        AnyValue::Fields(pairs) => yrs::Any::Map(
            std::sync::Arc::new(pairs.into_iter().map(|(k, f)| (k, any_of_field(f))).collect()),
        ),
        AnyValue::Opaque => yrs::Any::Null,
    }
}

impl Store {
    /// Relies on yrs::Doc::new and Doc::get_or_insert_array: a freshly created
    /// document holds an empty root array.
    #[verifier::external_body]
    pub(crate) fn new() -> (s: Store)
        ensures
            store_view(&s) == Seq::<SlotModel>::empty(),
    {
        let doc = yrs::Doc::new();
        let tasks = doc.get_or_insert_array("tasks");
        Store { doc, tasks }
    }

    /// Relies on yrs::Array::len: the number of elements of the sequence.
    #[verifier::external_body]
    pub(crate) fn len(&self) -> (n: usize)
        ensures
            n == store_view(self).len(),
    {
        let txn = yrs::Transact::transact(&self.doc);
        yrs::Array::len(&self.tasks, &txn) as usize
    }

    /// Relies on yrs::Array::get, which returns the element at the given
    /// position, and on the yrs value variants read by `field_of_any`: the
    /// result is the element at `i`, up to its model. The pairs of a yrs map
    /// come back in no fixed order, which the model absorbs by abstracting a
    /// field map to a mathematical map.
    #[verifier::external_body]
    pub(crate) fn get(&self, i: usize) -> (r: AnyValue)
        requires
            i < store_view(self).len(),
        ensures
            slot_model(r) == store_view(self)[i as int],
    {
        let txn = yrs::Transact::transact(&self.doc);
        match yrs::Array::get(&self.tasks, &txn, i as u32) {
            Some(yrs::Out::Any(yrs::Any::Map(m))) => AnyValue::Fields(
                m.iter().map(|(k, v)| (k.clone(), field_of_any(v))).collect(),
            ),
            _ => AnyValue::Opaque,
        }
    }

    /// Relies on yrs::Array::insert: inserting at `i` places the value there
    /// and shifts the elements from `i` on one place towards the back. The
    /// call panics above the length, which the precondition rules out.
    #[verifier::external_body]
    pub(crate) fn insert(&mut self, i: usize, v: AnyValue)
        requires
            i <= store_view(old(self)).len(),
            slot_ok(v),
        ensures
            store_view(final(self)) == store_view(old(self)).insert(i as int, slot_model(v)),
    {
        let mut txn = yrs::Transact::transact_mut(&self.doc);
        yrs::Array::insert(&self.tasks, &mut txn, i as u32, any_of_slot(v));
    }

    /// Relies on yrs::Array::remove: removing at `i` drops that element and
    /// keeps the rest in order. The call panics out of bounds, which the
    /// precondition rules out.
    #[verifier::external_body]
    pub(crate) fn remove(&mut self, i: usize)
        requires
            i < store_view(old(self)).len(),
        ensures
            store_view(final(self)) == store_view(old(self)).remove(i as int),
    {
        let mut txn = yrs::Transact::transact_mut(&self.doc);
        yrs::Array::remove(&self.tasks, &mut txn, i as u32);
    }

    /// Relies on yrs::Array::remove_range: removing the range that covers the
    /// whole sequence empties it. The call panics when the range overreaches,
    /// which the precondition rules out.
    #[verifier::external_body]
    pub(crate) fn clear(&mut self, n: usize)
        requires
            n == store_view(old(self)).len(),
            1 <= n,
        ensures
            store_view(final(self)) == Seq::<SlotModel>::empty(),
    {
        let mut txn = yrs::Transact::transact_mut(&self.doc);
        yrs::Array::remove_range(&self.tasks, &mut txn, 0, n as u32);
    }

    /// Relies on yrs::ReadTxn::encode_state_as_update_v1 against the empty
    /// state vector: a self-contained binary message carrying the document's
    /// whole state, in the engine's own format. The bytes are opaque and
    /// depend on engine internals, so nothing is claimed of them.
    #[verifier::external_body]
    pub(crate) fn encode_state(&self) -> Vec<u8> {
        let txn = yrs::Transact::transact(&self.doc);
        yrs::ReadTxn::encode_state_as_update_v1(&txn, &yrs::StateVector::default())
    }

    /// Relies on yrs::updates::decoder::Decode::decode_v1 and on
    /// yrs::TransactionMut::apply_update: a message that decodes is merged
    /// into the document by the engine's convergent algorithm; one that does
    /// not decode is discarded before any mutation, leaving the document
    /// unchanged. Whether the bytes decode is a function of the bytes alone,
    /// named `decodes_v1`. What a merge produces — including one the engine
    /// gives up on part-way, which it does not roll back — is the engine's to
    /// decide, so nothing is claimed of the state after a decodable message.
    #[verifier::external_body]
    pub(crate) fn apply(&mut self, update: &Vec<u8>) -> (applied: bool)
        ensures
            applied == decodes_v1(update@),
            !applied ==> store_view(final(self)) == store_view(old(self)),
    {
        let mut txn = yrs::Transact::transact_mut(&self.doc);
        if let Ok(u) = <yrs::Update as yrs::updates::decoder::Decode>::decode_v1(update) {
            let _ = txn.apply_update(u);
            true
        } else {
            false
        }
    }
}

} // verus!
