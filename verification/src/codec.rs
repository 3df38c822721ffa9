use crate::model::{
    item_model, keys_unique, lookup_from, pairs_model, slot_model, slot_ok, AnyValue, FieldModel,
    FieldValue, ItemModel, ListItem, SlotModel, TaskEntry, TaskModel,
};
use vstd::prelude::*;

verus! {

/// The field map that encoding a task produces: exactly the task's fields,
/// each under its own key.
pub open spec fn spec_encode_map(t: TaskModel) -> Map<Seq<char>, FieldModel> {
    map![
        "uuid"@ => FieldModel::Text(t.uuid),
        "content"@ => FieldModel::Text(t.content),
        "is_pinned"@ => FieldModel::Flag(t.is_pinned),
        "created_at"@ => FieldModel::Int(t.created_at),
        "updated_at"@ => FieldModel::Int(t.updated_at),
        "tags"@ => FieldModel::Items(t.tags.map_values(|s: Seq<char>| ItemModel::Text(s))),
        "custom_sort_order"@ => FieldModel::Int(t.custom_sort_order),
    ]
}

/// Encoding a task yields a field map; encoding is total.
pub open spec fn spec_encode(t: TaskModel) -> SlotModel {
    SlotModel::Fields(spec_encode_map(t))
}

/// The field stored under `k`, or an opaque placeholder when the key is
/// absent; decoding treats an absent field and a wrongly typed field alike.
pub open spec fn field_or_absent(m: Map<Seq<char>, FieldModel>, k: Seq<char>) -> FieldModel {
    if m.contains_key(k) {
        m[k]
    } else {
        FieldModel::Opaque
    }
}

/// A text field decodes to its characters; anything else to the empty string.
pub open spec fn decode_text(m: Map<Seq<char>, FieldModel>, k: Seq<char>) -> Seq<char> {
    match field_or_absent(m, k) {
        FieldModel::Text(s) => s,
        _ => Seq::empty(),
    }
}

/// A boolean field decodes to its value; anything else to false.
pub open spec fn decode_flag(m: Map<Seq<char>, FieldModel>, k: Seq<char>) -> bool {
    match field_or_absent(m, k) {
        FieldModel::Flag(b) => b,
        _ => false,
    }
}

/// An integer field decodes to its value; anything else to zero.
pub open spec fn decode_int(m: Map<Seq<char>, FieldModel>, k: Seq<char>) -> i64 {
    match field_or_absent(m, k) {
        FieldModel::Int(n) => n,
        _ => 0,
    }
}

/// The strings among a list's items, in order; items that are not strings are
/// dropped.
pub open spec fn text_items(items: Seq<ItemModel>) -> Seq<Seq<char>>
    decreases items.len(),
{
    if items.len() == 0 {
        Seq::empty()
    } else {
        text_items(items.drop_last()) + (match items.last() {
            ItemModel::Text(s) => seq![s],
            ItemModel::Opaque => Seq::empty(),
        })
    }
}

/// The tags field decodes to the strings of its list; a missing or wrongly
/// typed field to no tags at all.
pub open spec fn decode_tags(m: Map<Seq<char>, FieldModel>) -> Seq<Seq<char>> {
    match field_or_absent(m, "tags"@) {
        FieldModel::Items(items) => text_items(items),
        _ => Seq::empty(),
    }
}

/// Decoding a field map never fails: each field is read when present and of
/// the expected type, and substituted by its typed default otherwise.
pub open spec fn spec_decode_map(m: Map<Seq<char>, FieldModel>) -> TaskModel {
    TaskModel {
        uuid: decode_text(m, "uuid"@),
        content: decode_text(m, "content"@),
        is_pinned: decode_flag(m, "is_pinned"@),
        created_at: decode_int(m, "created_at"@),
        updated_at: decode_int(m, "updated_at"@),
        tags: decode_tags(m),
        custom_sort_order: decode_int(m, "custom_sort_order"@),
    }
}

/// Decoding a sequence element: a field map decodes to a task, anything else
/// is skipped.
pub open spec fn spec_decode(sl: SlotModel) -> Option<TaskModel> {
    match sl {
        SlotModel::Fields(m) => Some(spec_decode_map(m)),
        SlotModel::Opaque => None,
    }
}

/// The keys of the encoded field map are pairwise distinct.
pub proof fn lemma_keys_distinct()
    ensures
        "uuid"@ != "content"@,
        "uuid"@ != "is_pinned"@,
        "uuid"@ != "created_at"@,
        "uuid"@ != "updated_at"@,
        "uuid"@ != "tags"@,
        "uuid"@ != "custom_sort_order"@,
        "content"@ != "is_pinned"@,
        "content"@ != "created_at"@,
        "content"@ != "updated_at"@,
        "content"@ != "tags"@,
        "content"@ != "custom_sort_order"@,
        "is_pinned"@ != "created_at"@,
        "is_pinned"@ != "updated_at"@,
        "is_pinned"@ != "tags"@,
        "is_pinned"@ != "custom_sort_order"@,
        "created_at"@ != "updated_at"@,
        "created_at"@ != "tags"@,
        "created_at"@ != "custom_sort_order"@,
        "updated_at"@ != "tags"@,
        "updated_at"@ != "custom_sort_order"@,
        "tags"@ != "custom_sort_order"@,
{
    reveal_strlit("uuid");
    reveal_strlit("content");
    reveal_strlit("is_pinned");
    reveal_strlit("created_at");
    reveal_strlit("updated_at");
    reveal_strlit("tags");
    reveal_strlit("custom_sort_order");
    assert("uuid"@.len() == 4);
    assert("content"@.len() == 7);
    assert("is_pinned"@.len() == 9);
    assert("created_at"@.len() == 10);
    assert("updated_at"@.len() == 10);
    assert("tags"@.len() == 4);
    assert("custom_sort_order"@.len() == 17);
    assert("uuid"@[0] == 'u');
    assert("tags"@[0] == 't');
    assert("created_at"@[0] == 'c');
    assert("updated_at"@[0] == 'u');
}

/// Reading back a list of texts drops nothing.
pub proof fn lemma_text_items_of_texts(tags: Seq<Seq<char>>)
    ensures
        text_items(tags.map_values(|s: Seq<char>| ItemModel::Text(s))) == tags,
    decreases tags.len(),
{
    let mapped = tags.map_values(|s: Seq<char>| ItemModel::Text(s));
    if tags.len() == 0 {
        assert(mapped.len() == 0);
        assert(text_items(mapped) =~= tags);
    } else {
        lemma_text_items_of_texts(tags.drop_last());
        assert(mapped.drop_last() =~= tags.drop_last().map_values(
            |s: Seq<char>| ItemModel::Text(s),
        ));
        assert(mapped.last() == ItemModel::Text(tags.last()));
        assert(text_items(mapped) =~= tags);
    }
}

/// Round-trip law: decoding an encoded task gives the task back, for every
/// task.
pub proof fn lemma_codec_round_trip(t: TaskModel)
    ensures
        spec_decode(spec_encode(t)) == Some(t),
{
    lemma_keys_distinct();
    lemma_text_items_of_texts(t.tags);
    let m = spec_encode_map(t);
    assert(m["uuid"@] == FieldModel::Text(t.uuid));
    assert(m["content"@] == FieldModel::Text(t.content));
    assert(m["is_pinned"@] == FieldModel::Flag(t.is_pinned));
    assert(m["created_at"@] == FieldModel::Int(t.created_at));
    assert(m["updated_at"@] == FieldModel::Int(t.updated_at));
    assert(m["tags"@] == FieldModel::Items(
        t.tags.map_values(|s: Seq<char>| ItemModel::Text(s)),
    ));
    assert(m["custom_sort_order"@] == FieldModel::Int(t.custom_sort_order));
    assert(spec_decode_map(m) =~= t);
}

/// Relies on `str`'s `PartialEq`: string slices compare equal exactly when
/// their character sequences are equal.
#[verifier::external_body]
pub(crate) fn str_eq(a: &str, b: &str) -> (r: bool)
    ensures
        r == (a@ == b@),
{
    a == b
}

/// Index of the front-most pair whose key is `key`, if any.
pub(crate) fn field_at(pairs: &Vec<(String, FieldValue)>, key: &str) -> (r: Option<usize>)
    ensures
        match r {
            Some(i) => i < pairs@.len() && lookup_from(pairs@, key@, 0) == Some(
                pairs@[i as int].1,
            ),
            None => lookup_from(pairs@, key@, 0) is None,
        },
{
    let mut i: usize = 0;
    while i < pairs.len()
        invariant
            i <= pairs@.len(),
            lookup_from(pairs@, key@, 0) == lookup_from(pairs@, key@, i as int),
        decreases pairs@.len() - i,
    {
        if str_eq(pairs[i].0.as_str(), key) {
            return Some(i);
        }
        i = i + 1;
    }
    None
}

fn decode_text_field(pairs: &Vec<(String, FieldValue)>, key: &str) -> (r: String)
    ensures
        r@ == decode_text(pairs_model(pairs@), key@),
{
    match field_at(pairs, key) {
        Some(i) => match &pairs[i].1 {
            FieldValue::Text(s) => s.clone(),
            _ => String::new(),
        },
        None => String::new(),
    }
}

fn decode_flag_field(pairs: &Vec<(String, FieldValue)>, key: &str) -> (r: bool)
    ensures
        r == decode_flag(pairs_model(pairs@), key@),
{
    match field_at(pairs, key) {
        Some(i) => match &pairs[i].1 {
            FieldValue::Flag(b) => *b,
            _ => false,
        },
        None => false,
    }
}

fn decode_int_field(pairs: &Vec<(String, FieldValue)>, key: &str) -> (r: i64)
    ensures
        r == decode_int(pairs_model(pairs@), key@),
{
    match field_at(pairs, key) {
        Some(i) => match &pairs[i].1 {
            FieldValue::Int(n) => *n,
            _ => 0,
        },
        None => 0,
    }
}

/// The strings among a list's items, in order.
fn collect_texts(items: &Vec<ListItem>) -> (r: Vec<String>)
    ensures
        r.deep_view() == text_items(items@.map_values(|it: ListItem| item_model(it))),
{
    let mut out: Vec<String> = Vec::new();
    let mut i: usize = 0;
    while i < items.len()
        invariant
            i <= items@.len(),
            out.deep_view() == text_items(
                items@.take(i as int).map_values(|it: ListItem| item_model(it)),
            ),
        decreases items@.len() - i,
    {
        let ghost prev = out.deep_view();
        match &items[i] {
            ListItem::Text(s) => out.push(s.clone()),
            ListItem::Opaque => {},
        }
        i = i + 1;
        proof {
            let f = |it: ListItem| item_model(it);
            let cur = items@.take(i as int).map_values(f);
            assert(cur.drop_last() =~= items@.take(i as int - 1).map_values(f));
            assert(cur.last() == item_model(items@[i as int - 1]));
            assert(out.deep_view() =~= text_items(cur));
        }
    }
    proof {
        assert(items@.take(items@.len() as int) =~= items@);
    }
    out
}

fn decode_tags_field(pairs: &Vec<(String, FieldValue)>) -> (r: Vec<String>)
    ensures
        r.deep_view() == decode_tags(pairs_model(pairs@)),
{
    match field_at(pairs, "tags") {
        Some(i) => match &pairs[i].1 {
            FieldValue::Items(items) => collect_texts(items),
            _ => Vec::new(),
        },
        None => Vec::new(),
    }
}

/// Decode a field map into a task; absent and wrongly typed fields become
/// their typed defaults, so decoding never fails.
fn decode_fields(pairs: &Vec<(String, FieldValue)>) -> (r: TaskEntry)
    ensures
        r@ == spec_decode_map(pairs_model(pairs@)),
{
    let r = TaskEntry {
        uuid: decode_text_field(pairs, "uuid"),
        content: decode_text_field(pairs, "content"),
        is_pinned: decode_flag_field(pairs, "is_pinned"),
        created_at: decode_int_field(pairs, "created_at"),
        updated_at: decode_int_field(pairs, "updated_at"),
        tags: decode_tags_field(pairs),
        custom_sort_order: decode_int_field(pairs, "custom_sort_order"),
    };
    proof {
        assert(r@ =~= spec_decode_map(pairs_model(pairs@)));
    }
    r
}

/// Decode one sequence element: a field map decodes to a task, any other
/// structured value is skipped.
pub fn decode_slot(v: &AnyValue) -> (r: Option<TaskEntry>)
    ensures
        (match r {
            Some(t) => Some(t@),
            None => None::<TaskModel>,
        }) == spec_decode(slot_model(*v)),
{
    match v {
        AnyValue::Fields(pairs) => Some(decode_fields(pairs)),
        AnyValue::Opaque => None,
    }
}

/// The items standing for a list of tags, each a text item.
fn make_items(tags: &Vec<String>) -> (r: Vec<ListItem>)
    ensures
        r@.map_values(|it: ListItem| item_model(it)) == tags.deep_view().map_values(
            |s: Seq<char>| ItemModel::Text(s),
        ),
{
    let mut out: Vec<ListItem> = Vec::new();
    let mut i: usize = 0;
    while i < tags.len()
        invariant
            i <= tags@.len(),
            out@.len() == i,
            forall|j: int| 0 <= j < i ==> item_model(out@[j]) == ItemModel::Text(tags@[j]@),
        decreases tags@.len() - i,
    {
        out.push(ListItem::Text(tags[i].clone()));
        i = i + 1;
    }
    proof {
        assert(out@.map_values(|it: ListItem| item_model(it)) =~= tags.deep_view().map_values(
            |s: Seq<char>| ItemModel::Text(s),
        ));
    }
    out
}

/// Encode a task as a string-keyed field map holding exactly the task's
/// fields; encoding is total.
pub fn encode_task(t: &TaskEntry) -> (r: AnyValue)
    ensures
        slot_model(r) == spec_encode(t@),
        slot_ok(r),
{
    let items = make_items(&t.tags);
    let mut pairs: Vec<(String, FieldValue)> = Vec::new();
    pairs.push(("uuid".to_owned(), FieldValue::Text(t.uuid.clone())));
    pairs.push(("content".to_owned(), FieldValue::Text(t.content.clone())));
    pairs.push(("is_pinned".to_owned(), FieldValue::Flag(t.is_pinned)));
    pairs.push(("created_at".to_owned(), FieldValue::Int(t.created_at)));
    pairs.push(("updated_at".to_owned(), FieldValue::Int(t.updated_at)));
    pairs.push(("tags".to_owned(), FieldValue::Items(items)));
    pairs.push(("custom_sort_order".to_owned(), FieldValue::Int(t.custom_sort_order)));
    let r = AnyValue::Fields(pairs);
    proof {
        lemma_keys_distinct();
        assert(pairs@[0].0@ == "uuid"@);
        assert(pairs@[1].0@ == "content"@);
        assert(pairs@[2].0@ == "is_pinned"@);
        assert(pairs@[3].0@ == "created_at"@);
        assert(pairs@[4].0@ == "updated_at"@);
        assert(pairs@[5].0@ == "tags"@);
        assert(pairs@[6].0@ == "custom_sort_order"@);
        assert(keys_unique(pairs@));
        reveal_with_fuel(lookup_from, 9);
        assert(pairs_model(pairs@) =~= spec_encode_map(t@));
    }
    r
}

} // verus!
