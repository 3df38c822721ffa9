use crate::codec::{
    decode_slot, encode_task, field_at, spec_decode_map, spec_encode, str_eq,
};
use crate::model::{AnyValue, FieldModel, FieldValue, SlotModel, TaskEntry, TaskModel};
use crate::store::{decodes_v1, store_view, Store};
use vstd::prelude::*;

verus! {

/// The tasks that a sequence of elements decodes to: each field-map element
/// decoded, in order; every other element skipped.
pub open spec fn decoded_tasks(s: Seq<SlotModel>) -> Seq<TaskModel>
    decreases s.len(),
{
    if s.len() == 0 {
        Seq::empty()
    } else {
        decoded_tasks(s.drop_last()) + (match s.last() {
            SlotModel::Fields(m) => seq![spec_decode_map(m)],
            SlotModel::Opaque => Seq::empty(),
        })
    }
}

/// Whether a sequence element is a field map whose uuid field is the string
/// `u`. An element without a string uuid field matches nothing, even though
/// decoding defaults its uuid to the empty string.
pub open spec fn slot_matches(sl: SlotModel, u: Seq<char>) -> bool {
    match sl {
        SlotModel::Fields(m) => m.contains_key("uuid"@) && m["uuid"@] == FieldModel::Text(u),
        SlotModel::Opaque => false,
    }
}

/// Position of the front-most element matching `u`, scanning from position
/// `i` towards the back.
pub open spec fn find_from(s: Seq<SlotModel>, u: Seq<char>, i: int) -> Option<int>
    decreases s.len() - i,
{
    if i < 0 || i >= s.len() {
        None
    } else if slot_matches(s[i], u) {
        Some(i)
    } else {
        find_from(s, u, i + 1)
    }
}

/// Position of the front-most element matching `u`, if any: the lookup every
/// mutating operation uses, deterministic for a fixed sequence, and selecting
/// the first match when a uuid occurs twice.
pub open spec fn spec_find(s: Seq<SlotModel>, u: Seq<char>) -> Option<int> {
    find_from(s, u, 0)
}

/// What the lookup's result means: the found position is the first match; a
/// miss means no element matches.
pub proof fn lemma_find_from_spec(s: Seq<SlotModel>, u: Seq<char>, i: int)
    requires
        0 <= i <= s.len(),
    ensures
        match find_from(s, u, i) {
            Some(j) => i <= j < s.len() && slot_matches(s[j], u) && (forall|k: int|
                i <= k < j ==> !slot_matches(s[k], u)),
            None => forall|k: int| i <= k < s.len() ==> !slot_matches(s[k], u),
        },
    decreases s.len() - i,
{
    if i < s.len() && !slot_matches(s[i], u) {
        lemma_find_from_spec(s, u, i + 1);
    }
}

/// Whether this element is a field map whose uuid field is the given string.
fn slot_has_uuid(v: &AnyValue, uuid: &str) -> (b: bool)
    ensures
        b == slot_matches(crate::model::slot_model(*v), uuid@),
{
    match v {
        AnyValue::Fields(pairs) => match field_at(pairs, "uuid") {
            Some(i) => match &pairs[i].1 {
                FieldValue::Text(s) => str_eq(s.as_str(), uuid),
                _ => false,
            },
            None => false,
        },
        AnyValue::Opaque => false,
    }
}

/// A replicated task-list document: one replicated sequence of structured
/// values, owned by the document for its lifetime and mutated in place. The
/// document's abstract state is the sequence of its elements' models.
pub struct TaskDocument {
    store: Store,
}

impl View for TaskDocument {
    type V = Seq<SlotModel>;

    closed spec fn view(&self) -> Seq<SlotModel> {
        store_view(&self.store)
    }
}

impl TaskDocument {
    /// A new document holds an empty task list.
    pub fn new() -> (d: TaskDocument)
        ensures
            d@ == Seq::<SlotModel>::empty(),
    {
        TaskDocument { store: Store::new() }
    }

    /// The decoded task list, front to back in store order; elements that are
    /// not field maps are skipped. Read-only.
    pub fn get_all_tasks(&self) -> (r: Vec<TaskEntry>)
        ensures
            r.deep_view() == decoded_tasks(self@),
    {
        let mut out: Vec<TaskEntry> = Vec::new();
        let n = self.store.len();
        let mut i: usize = 0;
        while i < n
            invariant
                n == self@.len(),
                i <= n,
                out.deep_view() == decoded_tasks(self@.take(i as int)),
            decreases n - i,
        {
            let v = self.store.get(i);
            match decode_slot(&v) {
                Some(t) => out.push(t),
                None => {},
            }
            i = i + 1;
            proof {
                let pre = self@.take(i as int);
                assert(pre.drop_last() =~= self@.take(i as int - 1));
                assert(pre.last() == self@[i as int - 1]);
                assert(out.deep_view() =~= decoded_tasks(pre));
            }
        }
        proof {
            assert(self@.take(self@.len() as int) =~= self@);
        }
        out
    }

    /// Position of the front-most element whose uuid field equals `uuid`.
    fn find_index(&self, uuid: &str) -> (r: Option<usize>)
        ensures
            match r {
                Some(i) => i < self@.len() && spec_find(self@, uuid@) == Some(i as int),
                None => spec_find(self@, uuid@) is None,
            },
    {
        let n = self.store.len();
        let mut i: usize = 0;
        while i < n
            invariant
                n == self@.len(),
                i <= n,
                find_from(self@, uuid@, 0) == find_from(self@, uuid@, i as int),
            decreases n - i,
        {
            let v = self.store.get(i);
            if slot_has_uuid(&v, uuid) {
                return Some(i);
            }
            i = i + 1;
        }
        None
    }

    /// Add a task. When an element with the task's uuid is already present,
    /// the front-most such element is replaced in place (an upsert); otherwise
    /// the task is inserted at the head of the sequence.
    pub fn add_task(&mut self, task: TaskEntry)
        ensures
            final(self)@ == (match spec_find(old(self)@, task@.uuid) {
                Some(i) => old(self)@.update(i, spec_encode(task@)),
                None => old(self)@.insert(0, spec_encode(task@)),
            }),
    {
        let idx = self.find_index(task.uuid.as_str());
        let v = encode_task(&task);
        match idx {
            Some(i) => {
                let ghost s0 = self@;
                self.store.remove(i);
                self.store.insert(i, v);
                proof {
                    assert(s0.remove(i as int).insert(i as int, spec_encode(task@)) =~= s0.update(
                        i as int,
                        spec_encode(task@),
                    ));
                }
            },
            None => {
                self.store.insert(0, v);
            },
        }
    }

    /// Replace the front-most element whose uuid field equals `uuid` by the
    /// given task, at the position that element occupied: the whole record is
    /// replaced, nothing is merged field by field. When no element matches,
    /// nothing changes.
    pub fn update_task(&mut self, uuid: String, task: TaskEntry)
        ensures
            final(self)@ == (match spec_find(old(self)@, uuid@) {
                Some(i) => old(self)@.update(i, spec_encode(task@)),
                None => old(self)@,
            }),
    {
        match self.find_index(uuid.as_str()) {
            Some(i) => {
                let v = encode_task(&task);
                let ghost s0 = self@;
                self.store.remove(i);
                self.store.insert(i, v);
                proof {
                    assert(s0.remove(i as int).insert(i as int, spec_encode(task@)) =~= s0.update(
                        i as int,
                        spec_encode(task@),
                    ));
                }
            },
            None => {},
        }
    }

    /// Remove the front-most element whose uuid field equals `uuid`; when no
    /// element matches, nothing changes.
    pub fn delete_task(&mut self, uuid: String)
        ensures
            final(self)@ == (match spec_find(old(self)@, uuid@) {
                Some(i) => old(self)@.remove(i),
                None => old(self)@,
            }),
    {
        match self.find_index(uuid.as_str()) {
            Some(i) => {
                self.store.remove(i);
            },
            None => {},
        }
    }

    /// Replace the whole document state: clear the sequence, then append the
    /// given tasks in order. A destructive local overwrite, not a merge.
    pub fn restore_all(&mut self, tasks: Vec<TaskEntry>)
        ensures
            final(self)@ == tasks.deep_view().map_values(|t: TaskModel| spec_encode(t)),
    {
        let n = self.store.len();
        if n > 0 {
            self.store.clear(n);
        }
        let mut i: usize = 0;
        while i < tasks.len()
            invariant
                i <= tasks@.len(),
                self@.len() == i,
                self@ == tasks.deep_view().take(i as int).map_values(
                    |t: TaskModel| spec_encode(t),
                ),
            decreases tasks@.len() - i,
        {
            let v = encode_task(&tasks[i]);
            let len = self.store.len();
            self.store.insert(len, v);
            i = i + 1;
            proof {
                assert(self@ =~= tasks.deep_view().take(i as int).map_values(
                    |t: TaskModel| spec_encode(t),
                ));
            }
        }
        proof {
            assert(tasks.deep_view().take(tasks.deep_view().len() as int) =~= tasks.deep_view());
        }
    }

    /// A self-contained binary update message carrying the document's whole
    /// state: what a freshly created peer needs, applied once, to reach this
    /// document's contents. Read-only; the bytes are the engine's own opaque
    /// format and nothing is stated of them.
    pub fn get_update(&self) -> Vec<u8> {
        self.store.encode_state()
    }

    /// Merge a binary update message into the document with the engine's
    /// convergent algorithm. A message that does not decode is discarded and
    /// the document is left unchanged; no error reaches the caller either way.
    /// What a decodable message merges to is the engine's to decide, so
    /// nothing is stated of the document's state after one.
    pub fn apply_update(&mut self, update: Vec<u8>)
        ensures
            !decodes_v1(update@) ==> final(self)@ == old(self)@,
    {
        self.store.apply(&update);
    }
}

} // verus!
