//! The JSON-like document value: the lingua franca between settings objects,
//! the world-level serializer, and the settings file.

use vstd::prelude::*;

verus! {

/// Mathematical model of a document value. Numbers are unbounded integers,
/// strings are character sequences, objects are ordered key/value sequences.
pub enum JsonV {
    Null,
    Bool(bool),
    Int(int),
    Str(Seq<char>),
    Arr(Seq<JsonV>),
    Obj(Seq<(Seq<char>, JsonV)>),
}

/// A generic JSON document value. Objects keep their entries in insertion
/// order, which fixes the key order of a saved settings file.
pub enum Json {
    Null,
    Bool(bool),
    Int(i64),
    Str(String),
    Arr(Vec<Json>),
    Obj(Vec<(String, Json)>),
}

pub open spec fn json_v(j: Json) -> JsonV
    decreases j,
{
    match j {
        Json::Null => JsonV::Null,
        Json::Bool(b) => JsonV::Bool(b),
        Json::Int(i) => JsonV::Int(i as int),
        Json::Str(s) => JsonV::Str(s@),
        Json::Arr(items) => JsonV::Arr(arr_v(items@)),
        Json::Obj(entries) => JsonV::Obj(obj_v(entries@)),
    }
}

pub open spec fn arr_v(items: Seq<Json>) -> Seq<JsonV>
    decreases items,
{
    if items.len() == 0 {
        Seq::empty()
    } else {
        seq![json_v(items[0])] + arr_v(items.drop_first())
    }
}

pub open spec fn obj_v(entries: Seq<(String, Json)>) -> Seq<(Seq<char>, JsonV)>
    decreases entries,
{
    if entries.len() == 0 {
        Seq::empty()
    } else {
        seq![(entries[0].0@, json_v(entries[0].1))] + obj_v(entries.drop_first())
    }
}

impl View for Json {
    type V = JsonV;

    open spec fn view(&self) -> JsonV {
        json_v(*self)
    }
}

/// `arr_v` maps an item sequence pointwise.
pub proof fn lemma_arr_v(items: Seq<Json>)
    ensures
        arr_v(items).len() == items.len(),
        forall|i: int| 0 <= i < items.len() ==> arr_v(items)[i] == json_v(items[i]),
    decreases items.len(),
{
    if items.len() > 0 {
        lemma_arr_v(items.drop_first());
    }
}

/// `obj_v` maps an entry sequence pointwise.
pub proof fn lemma_obj_v(entries: Seq<(String, Json)>)
    ensures
        obj_v(entries).len() == entries.len(),
        forall|i: int| 0 <= i < entries.len() ==> obj_v(entries)[i] == (
            entries[i].0@,
            json_v(entries[i].1),
        ),
    decreases entries.len(),
{
    if entries.len() > 0 {
        lemma_obj_v(entries.drop_first());
    }
}

/// Index of the first entry bearing `key`, or -1 when no entry does.
pub open spec fn key_idx(o: Seq<(Seq<char>, JsonV)>, key: Seq<char>) -> int
    decreases o.len(),
{
    if o.len() == 0 {
        -1
    } else if o[0].0 == key {
        0
    } else {
        let rest = key_idx(o.drop_first(), key);
        if rest == -1 {
            -1
        } else {
            rest + 1
        }
    }
}

/// What `key_idx` finds: the first entry with the key, if any.
pub proof fn lemma_key_idx(o: Seq<(Seq<char>, JsonV)>, key: Seq<char>)
    ensures
        key_idx(o, key) == -1 ==> forall|j: int| 0 <= j < o.len() ==> o[j].0 != key,
        key_idx(o, key) != -1 ==> 0 <= key_idx(o, key) < o.len() && o[key_idx(o, key)].0 == key
            && forall|j: int| 0 <= j < key_idx(o, key) ==> o[j].0 != key,
    decreases o.len(),
{
    if o.len() > 0 && o[0].0 != key {
        lemma_key_idx(o.drop_first(), key);
        if key_idx(o, key) == -1 {
            assert forall|j: int| 0 <= j < o.len() implies o[j].0 != key by {
                if j > 0 {
                    assert(o.drop_first()[j - 1] == o[j]);
                }
            }
        } else {
            let k = key_idx(o, key);
            assert(o.drop_first()[k - 1] == o[k]);
            assert forall|j: int| 0 <= j < k implies o[j].0 != key by {
                if j > 0 {
                    assert(o.drop_first()[j - 1] == o[j]);
                }
            }
        }
    }
}

/// `key_idx` returns the first matching index.
pub proof fn lemma_key_idx_is(o: Seq<(Seq<char>, JsonV)>, key: Seq<char>, i: int)
    requires
        0 <= i < o.len(),
        o[i].0 == key,
        forall|j: int| 0 <= j < i ==> o[j].0 != key,
    ensures
        key_idx(o, key) == i,
    decreases i,
{
    if i > 0 {
        assert(forall|j: int| 0 <= j < o.drop_first().len() ==> o.drop_first()[j] == o[j + 1]);
        lemma_key_idx_is(o.drop_first(), key, i - 1);
    }
}

/// The value under the first occurrence of `key` in an object's entries.
pub open spec fn obj_get_v(o: Seq<(Seq<char>, JsonV)>, key: Seq<char>) -> Option<JsonV> {
    if key_idx(o, key) == -1 {
        Option::None
    } else {
        Option::Some(o[key_idx(o, key)].1)
    }
}

/// The entries with the first occurrence of `key` removed.
pub open spec fn obj_remove_v(o: Seq<(Seq<char>, JsonV)>, key: Seq<char>) -> Seq<
    (Seq<char>, JsonV),
> {
    if key_idx(o, key) == -1 {
        o
    } else {
        o.remove(key_idx(o, key))
    }
}

/// Consuming one key leaves lookups of every other key unchanged.
pub proof fn lemma_obj_remove_other(o: Seq<(Seq<char>, JsonV)>, key: Seq<char>, k: Seq<char>)
    requires
        k != key,
    ensures
        obj_get_v(obj_remove_v(o, key), k) == obj_get_v(o, k),
{
    lemma_key_idx(o, key);
    if key_idx(o, key) != -1 {
        let ki = key_idx(o, key);
        let r = o.remove(ki);
        o.remove_ensures(ki);
        lemma_key_idx(o, k);
        lemma_key_idx(r, k);
        let kk = key_idx(o, k);
        if kk == -1 {
            assert(key_idx(r, k) == -1) by {
                if key_idx(r, k) != -1 {
                    let rk = key_idx(r, k);
                    if rk < ki {
                        assert(r[rk] == o[rk]);
                    } else {
                        assert(r[rk] == o[rk + 1]);
                    }
                }
            }
        } else if kk < ki {
            assert forall|j: int| 0 <= j < kk implies r[j].0 != k by {
                assert(r[j] == o[j]);
            }
            assert(r[kk] == o[kk]);
            lemma_key_idx_is(r, k, kk);
        } else {
            assert(kk != ki);
            assert forall|j: int| 0 <= j < kk - 1 implies r[j].0 != k by {
                if j < ki {
                    assert(r[j] == o[j]);
                } else {
                    assert(r[j] == o[j + 1]);
                }
            }
            assert(r[kk - 1] == o[kk]);
            lemma_key_idx_is(r, k, kk - 1);
        }
    }
}

/// An entry appended under a different key changes no other key's lookup:
/// extra keys in a document cannot affect what any field reads.
pub proof fn lemma_obj_push_other(o: Seq<(Seq<char>, JsonV)>, e: (Seq<char>, JsonV), key: Seq<char>)
    requires
        e.0 != key,
    ensures
        obj_get_v(o.push(e), key) == obj_get_v(o, key),
{
    lemma_key_idx(o, key);
    lemma_key_idx(o.push(e), key);
    if key_idx(o, key) == -1 {
        if key_idx(o.push(e), key) != -1 {
            let k = key_idx(o.push(e), key);
            assert(o.push(e)[k].0 == key);
            if k < o.len() {
                assert(o.push(e)[k] == o[k]);
            } else {
                assert(o.push(e)[k] == e);
            }
        }
    } else {
        let k = key_idx(o, key);
        assert(o.push(e)[k] == o[k]);
        assert forall|j: int| 0 <= j < k implies o.push(e)[j].0 != key by {
            assert(o.push(e)[j] == o[j]);
        }
        lemma_key_idx_is(o.push(e), key, k);
    }
}

/// Field lookup on a whole document value: `None` unless it is an object
/// holding the key.
pub open spec fn jv_get(j: JsonV, key: Seq<char>) -> Option<JsonV> {
    match j {
        JsonV::Obj(o) => obj_get_v(o, key),
        _ => Option::None,
    }
}

/// Deep copy of a document value.
pub fn json_clone(j: &Json) -> (r: Json)
    ensures
        r@ == j@,
    decreases *j,
{
    match j {
        Json::Null => Json::Null,
        Json::Bool(b) => Json::Bool(*b),
        Json::Int(i) => Json::Int(*i),
        Json::Str(s) => Json::Str(s.clone()),
        Json::Arr(items) => {
            let mut out: Vec<Json> = Vec::new();
            let n = items.len();
            for i in 0..n
                invariant
                    n == items.len(),
                    *j is Arr,
                    *items == (*j)->Arr_0,
                    out@.len() == i,
                    forall|k: int| 0 <= k < i ==> json_v(#[trigger] out@[k]) == json_v(items@[k]),
            {
                proof {
                    assert(decreases_to!(*j => (*j)->Arr_0));
                    assert(*items == (*j)->Arr_0);
                    assert(decreases_to!(*items => items@));
                    assert(decreases_to!(items@ => items@[i as int]));
                }
                out.push(json_clone(&items[i]));
            }
            proof {
                lemma_arr_v(items@);
                lemma_arr_v(out@);
                assert(arr_v(out@) =~= arr_v(items@));
            }
            Json::Arr(out)
        },
        Json::Obj(entries) => {
            let mut out: Vec<(String, Json)> = Vec::new();
            let n = entries.len();
            for i in 0..n
                invariant
                    n == entries.len(),
                    *j is Obj,
                    *entries == (*j)->Obj_0,
                    out@.len() == i,
                    forall|k: int| 0 <= k < i ==> (#[trigger] out@[k]).0@ == entries@[k].0@
                        && json_v(out@[k].1) == json_v(entries@[k].1),
            {
                proof {
                    assert(decreases_to!(*j => (*j)->Obj_0));
                    assert(*entries == (*j)->Obj_0);
                    assert(decreases_to!(*entries => entries@));
                    assert(decreases_to!(entries@ => entries@[i as int]));
                    assert(decreases_to!(entries@[i as int] => entries@[i as int].1));
                }
                let e = &entries[i];
                out.push((e.0.clone(), json_clone(&e.1)));
            }
            proof {
                lemma_obj_v(entries@);
                lemma_obj_v(out@);
                assert(obj_v(out@) =~= obj_v(entries@));
            }
            Json::Obj(out)
        },
    }
}

/// Looks the first entry bearing `key` up without consuming it.
pub fn obj_get<'a>(entries: &'a Vec<(String, Json)>, key: &String) -> (r: Option<&'a Json>)
    ensures
        match r {
            Option::Some(v) => obj_get_v(obj_v(entries@), key@) == Option::Some(json_v(*v)),
            Option::None => obj_get_v(obj_v(entries@), key@) is None,
        },
{
    proof {
        lemma_obj_v(entries@);
    }
    let ghost o = obj_v(entries@);
    let n = entries.len();
    for i in 0..n
        invariant
            n == entries.len(),
            o == obj_v(entries@),
            o.len() == entries@.len(),
            forall|k: int| 0 <= k < entries@.len() ==> o[k] == (
                entries@[k].0@,
                json_v(entries@[k].1),
            ),
            forall|j: int| 0 <= j < i ==> o[j].0 != key@,
    {
        let e = &entries[i];
        if e.0 == *key {
            proof {
                lemma_key_idx_is(o, key@, i as int);
            }
            return Option::Some(&entries[i].1);
        }
    }
    proof {
        lemma_key_idx(o, key@);
    }
    Option::None
}

/// Removes the first entry bearing `key` from an object's entries and hands
/// its value back; the document is consumed key by key during deserialization.
pub fn obj_take(entries: &mut Vec<(String, Json)>, key: &String) -> (r: Option<Json>)
    ensures
        match r {
            Option::Some(v) => {
                &&& obj_get_v(obj_v(old(entries)@), key@) == Option::Some(json_v(v))
                &&& obj_v(final(entries)@) == obj_remove_v(obj_v(old(entries)@), key@)
            },
            Option::None => {
                &&& obj_get_v(obj_v(old(entries)@), key@) is None
                &&& final(entries)@ == old(entries)@
            },
        },
{
    proof {
        lemma_obj_v(entries@);
    }
    let ghost o = obj_v(entries@);
    let n = entries.len();
    for i in 0..n
        invariant
            n == entries.len(),
            entries@ == old(entries)@,
            o == obj_v(entries@),
            o.len() == entries@.len(),
            forall|k: int| 0 <= k < entries@.len() ==> o[k] == (
                entries@[k].0@,
                json_v(entries@[k].1),
            ),
            forall|j: int| 0 <= j < i ==> o[j].0 != key@,
    {
        let hit = {
            let e: &(String, Json) = &entries[i];
            e.0 == *key
        };
        if hit {
            proof {
                lemma_key_idx_is(o, key@, i as int);
            }
            let entry = entries.remove(i);
            proof {
                lemma_obj_v(entries@);
                assert(obj_v(entries@) =~= o.remove(i as int));
            }
            return Option::Some(entry.1);
        }
    }
    proof {
        lemma_key_idx(o, key@);
    }
    Option::None
}

} // verus!
