use crate::codec::{
    lemma_codec_round_trip, lemma_keys_distinct, spec_decode_map, spec_encode, spec_encode_map,
};
use crate::doc::{decoded_tasks, find_from, lemma_find_from_spec, slot_matches, spec_find};
use crate::model::{SlotModel, TaskModel};
use vstd::prelude::*;

verus! {

/// Decoding distributes over concatenation of sequences.
pub proof fn lemma_decoded_concat(a: Seq<SlotModel>, b: Seq<SlotModel>)
    ensures
        decoded_tasks(a + b) == decoded_tasks(a) + decoded_tasks(b),
    decreases b.len(),
{
    if b.len() == 0 {
        assert(a + b =~= a);
        assert(decoded_tasks(a) + decoded_tasks(b) =~= decoded_tasks(a));
    } else {
        lemma_decoded_concat(a, b.drop_last());
        assert((a + b).drop_last() =~= a + b.drop_last());
        assert((a + b).last() == b.last());
        assert(decoded_tasks(a + b) =~= decoded_tasks(a) + decoded_tasks(b));
    }
}

/// A single field map decodes to a single task.
pub proof fn lemma_decoded_single(m: Map<Seq<char>, crate::model::FieldModel>)
    ensures
        decoded_tasks(seq![SlotModel::Fields(m)]) == seq![spec_decode_map(m)],
{
    let s = seq![SlotModel::Fields(m)];
    assert(s.drop_last() =~= Seq::<SlotModel>::empty());
    assert(decoded_tasks(Seq::<SlotModel>::empty()) =~= Seq::<TaskModel>::empty());
    assert(s.last() == SlotModel::Fields(m));
    assert(decoded_tasks(s) =~= seq![spec_decode_map(m)]);
}

/// Re-encoding a decoded list and decoding again gives the list back.
pub proof fn lemma_decode_encoded_list(d: Seq<TaskModel>)
    ensures
        decoded_tasks(d.map_values(|t: TaskModel| spec_encode(t))) == d,
    decreases d.len(),
{
    let enc = d.map_values(|t: TaskModel| spec_encode(t));
    if d.len() == 0 {
        assert(enc.len() == 0);
        assert(decoded_tasks(enc) =~= d);
    } else {
        lemma_decode_encoded_list(d.drop_last());
        assert(enc.drop_last() =~= d.drop_last().map_values(|t: TaskModel| spec_encode(t)));
        assert(enc.last() == spec_encode(d.last()));
        lemma_codec_round_trip(d.last());
        assert(decoded_tasks(enc) =~= d);
    }
}

/// Law: restoring from the decoded list leaves the decoded document
/// unchanged, in content and in order — restore-all is the inverse of
/// listing. The restored sequence is exactly what `restore_all` builds from
/// what `get_all_tasks` returned.
pub proof fn lemma_restore_list_inverse(s: Seq<SlotModel>)
    ensures
        decoded_tasks(decoded_tasks(s).map_values(|t: TaskModel| spec_encode(t))) == decoded_tasks(
            s,
        ),
{
    lemma_decode_encoded_list(decoded_tasks(s));
}

/// An encoded task's element matches exactly its own uuid.
pub proof fn lemma_encoded_matches(t: TaskModel, u: Seq<char>)
    ensures
        slot_matches(spec_encode(t), u) <==> u == t.uuid,
{
    lemma_keys_distinct();
    let m = spec_encode_map(t);
    assert(m.contains_key("uuid"@));
    assert(m["uuid"@] == crate::model::FieldModel::Text(t.uuid));
}

/// Law: adding a task under a uuid that no element of the document carries
/// lengthens the decoded list by exactly one; the new task stands at the head
/// with every field intact, and the lookup by its uuid finds it there.
pub proof fn lemma_add_new_task(s: Seq<SlotModel>, t: TaskModel)
    requires
        spec_find(s, t.uuid) is None,
    ensures
        ({
            let s2 = s.insert(0, spec_encode(t));
            &&& decoded_tasks(s2).len() == decoded_tasks(s).len() + 1
            &&& decoded_tasks(s2)[0] == t
            &&& spec_find(s2, t.uuid) == Some(0int)
        }),
{
    let s2 = s.insert(0, spec_encode(t));
    assert(s2 =~= seq![spec_encode(t)] + s);
    lemma_decoded_concat(seq![spec_encode(t)], s);
    lemma_decoded_single(spec_encode_map(t));
    lemma_codec_round_trip(t);
    lemma_encoded_matches(t, t.uuid);
    assert(slot_matches(s2[0], t.uuid));
    assert(find_from(s2, t.uuid, 0) == Some(0int));
}

/// Law: updating a present uuid replaces exactly one decoded entry — the one
/// at the position the old record held — by the new task, fields defaulted by
/// the codec included; every other entry, and the order, is unchanged, and
/// the old field values are gone.
pub proof fn lemma_update_semantics(s: Seq<SlotModel>, u: Seq<char>, t2: TaskModel)
    requires
        spec_find(s, u) is Some,
    ensures
        ({
            let i = spec_find(s, u)->0;
            let p = decoded_tasks(s.take(i)).len() as int;
            &&& 0 <= p < decoded_tasks(s).len()
            &&& decoded_tasks(s.update(i, spec_encode(t2))) == decoded_tasks(s).update(p, t2)
        }),
{
    lemma_find_from_spec(s, u, 0);
    let i = spec_find(s, u)->0;
    let s2 = s.update(i, spec_encode(t2));
    let p = decoded_tasks(s.take(i)).len() as int;
    assert(s =~= s.take(i) + seq![s[i]] + s.skip(i + 1));
    assert(s2 =~= s.take(i) + seq![spec_encode(t2)] + s.skip(i + 1));
    lemma_decoded_concat(s.take(i) + seq![s[i]], s.skip(i + 1));
    lemma_decoded_concat(s.take(i), seq![s[i]]);
    lemma_decoded_concat(s.take(i) + seq![spec_encode(t2)], s.skip(i + 1));
    lemma_decoded_concat(s.take(i), seq![spec_encode(t2)]);
    let mi = s[i]->Fields_0;
    lemma_decoded_single(mi);
    lemma_decoded_single(spec_encode_map(t2));
    lemma_codec_round_trip(t2);
    assert(decoded_tasks(s) == decoded_tasks(s.take(i)) + seq![spec_decode_map(mi)]
        + decoded_tasks(s.skip(i + 1)));
    assert(decoded_tasks(s2) == decoded_tasks(s.take(i)) + seq![t2] + decoded_tasks(
        s.skip(i + 1),
    ));
    assert(decoded_tasks(s2) =~= decoded_tasks(s).update(p, t2));
}

/// Law: when a uuid occurs in at most one element, deleting it twice has the
/// same observable effect as deleting it once — after the first delete the
/// lookup misses, so the second delete is a no-op — and the decoded list is
/// shorter by exactly one entry in total.
pub proof fn lemma_delete_idempotent(s: Seq<SlotModel>, u: Seq<char>)
    requires
        spec_find(s, u) is Some,
        forall|j: int, k: int|
            0 <= j < k < s.len() ==> !(slot_matches(s[j], u) && slot_matches(s[k], u)),
    ensures
        ({
            let i = spec_find(s, u)->0;
            &&& spec_find(s.remove(i), u) is None
            &&& decoded_tasks(s.remove(i)).len() == decoded_tasks(s).len() - 1
        }),
{
    lemma_find_from_spec(s, u, 0);
    let i = spec_find(s, u)->0;
    let s2 = s.remove(i);
    assert(s =~= s.take(i) + seq![s[i]] + s.skip(i + 1));
    assert(s2 =~= s.take(i) + s.skip(i + 1));
    lemma_decoded_concat(s.take(i) + seq![s[i]], s.skip(i + 1));
    lemma_decoded_concat(s.take(i), seq![s[i]]);
    lemma_decoded_concat(s.take(i), s.skip(i + 1));
    let mi = s[i]->Fields_0;
    lemma_decoded_single(mi);
    if find_from(s2, u, 0) is Some {
        lemma_find_from_spec(s2, u, 0);
        let j2 = find_from(s2, u, 0)->0;
        if j2 < i {
            assert(s2[j2] == s[j2]);
            assert(slot_matches(s[j2], u) && slot_matches(s[i], u));
            assert(false);
        } else {
            assert(s2[j2] == s[j2 + 1]);
            assert(slot_matches(s[i], u) && slot_matches(s[j2 + 1], u));
            assert(false);
        }
    }
}

} // verus!
