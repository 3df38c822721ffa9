use vstd::prelude::*;

verus! {

/// One entry of a task list: the unit of replication. The `uuid` is the sole
/// key used for identity and lookup; timestamps are caller-supplied epoch
/// values; `tags` keeps the caller's order and duplicates; `custom_sort_order`
/// is a display hint for the host application.
#[derive(Debug, Clone, PartialEq)]
pub struct TaskEntry {
    pub uuid: String,
    pub content: String,
    pub is_pinned: bool,
    pub created_at: i64,
    pub updated_at: i64,
    pub tags: Vec<String>,
    pub custom_sort_order: i64,
}

/// The mathematical image of a `TaskEntry`: every text field as a sequence of
/// characters.
#[verifier::ext_equal]
pub struct TaskModel {
    pub uuid: Seq<char>,
    pub content: Seq<char>,
    pub is_pinned: bool,
    pub created_at: i64,
    pub updated_at: i64,
    pub tags: Seq<Seq<char>>,
    pub custom_sort_order: i64,
}

impl DeepView for TaskEntry {
    type V = TaskModel;

    open spec fn deep_view(&self) -> TaskModel {
        self.view()
    }
}

impl View for TaskEntry {
    type V = TaskModel;

    open spec fn view(&self) -> TaskModel {
        TaskModel {
            uuid: self.uuid@,
            content: self.content@,
            is_pinned: self.is_pinned,
            created_at: self.created_at,
            updated_at: self.updated_at,
            tags: self.tags.deep_view(),
            custom_sort_order: self.custom_sort_order,
        }
    }
}

/// One element of a generic list value, as far as the document reads it:
/// a string, or something it does not interpret.
#[derive(Debug, Clone)]
pub enum ListItem {
    Text(String),
    Opaque,
}

/// One field of a string-keyed field map, as far as the document reads it:
/// a string, a boolean, an integer, a list, or something it does not
/// interpret.
#[derive(Debug, Clone)]
pub enum FieldValue {
    Text(String),
    Flag(bool),
    Int(i64),
    Items(Vec<ListItem>),
    Opaque,
}

/// One element of the replicated sequence: a string-keyed field map, or some
/// other structured value, which every read operation skips.
#[derive(Debug, Clone)]
pub enum AnyValue {
    Fields(Vec<(String, FieldValue)>),
    Opaque,
}

/// Mathematical image of a `ListItem`.
#[verifier::ext_equal]
pub enum ItemModel {
    Text(Seq<char>),
    Opaque,
}

/// Mathematical image of a `FieldValue`.
#[verifier::ext_equal]
pub enum FieldModel {
    Text(Seq<char>),
    Flag(bool),
    Int(i64),
    Items(Seq<ItemModel>),
    Opaque,
}

/// Mathematical image of one replicated-sequence element. A field map is
/// abstracted to a mathematical map, so that the image does not depend on the
/// order in which the pairs of the map happen to be laid out.
#[verifier::ext_equal]
pub enum SlotModel {
    Fields(Map<Seq<char>, FieldModel>),
    Opaque,
}

pub open spec fn item_model(it: ListItem) -> ItemModel {
    match it {
        ListItem::Text(s) => ItemModel::Text(s@),
        ListItem::Opaque => ItemModel::Opaque,
    }
}

pub open spec fn field_model(v: FieldValue) -> FieldModel {
    match v {
        FieldValue::Text(s) => FieldModel::Text(s@),
        FieldValue::Flag(b) => FieldModel::Flag(b),
        FieldValue::Int(n) => FieldModel::Int(n),
        FieldValue::Items(items) => FieldModel::Items(
            items@.map_values(|it: ListItem| item_model(it)),
        ),
        FieldValue::Opaque => FieldModel::Opaque,
    }
}

/// First-match lookup of key `k` among the pairs, scanning from position `i`
/// towards the back.
pub open spec fn lookup_from(pairs: Seq<(String, FieldValue)>, k: Seq<char>, i: int) -> Option<
    FieldValue,
>
    decreases pairs.len() - i,
{
    if i < 0 || i >= pairs.len() {
        None
    } else if pairs[i].0@ == k {
        Some(pairs[i].1)
    } else {
        lookup_from(pairs, k, i + 1)
    }
}

/// The mathematical map that a sequence of key-value pairs denotes; when a key
/// is repeated, the front-most pair wins, matching the executable lookup.
pub open spec fn pairs_model(pairs: Seq<(String, FieldValue)>) -> Map<Seq<char>, FieldModel> {
    Map::new(
        |k: Seq<char>| lookup_from(pairs, k, 0) is Some,
        |k: Seq<char>| field_model(lookup_from(pairs, k, 0)->0),
    )
}

pub open spec fn slot_model(v: AnyValue) -> SlotModel {
    match v {
        AnyValue::Fields(pairs) => SlotModel::Fields(pairs_model(pairs@)),
        AnyValue::Opaque => SlotModel::Opaque,
    }
}

/// No key occurs twice among the pairs.
pub open spec fn keys_unique(pairs: Seq<(String, FieldValue)>) -> bool {
    forall|i: int, j: int| 0 <= i < j < pairs.len() ==> pairs[i].0@ != pairs[j].0@
}

/// A well-formed sequence element: a field map binds each key at most once.
pub open spec fn slot_ok(v: AnyValue) -> bool {
    match v {
        AnyValue::Fields(pairs) => keys_unique(pairs@),
        AnyValue::Opaque => true,
    }
}

} // verus!
