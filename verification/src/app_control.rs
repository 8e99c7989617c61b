//! Window settings: the persisted part of the windowing state.

use vstd::prelude::*;
use crate::json::{
    Json, JsonV, jv_get, obj_v, obj_take, lemma_obj_v, lemma_obj_remove_other, lemma_key_idx_is,
};
use crate::serialization::{Serializer, field_merge};

verus! {

/// Persisted window state. Every field belongs to the declared field set.
#[derive(Debug, Clone, Copy, PartialEq, Eq)]
pub struct WindowSettings {
    pub fullscreen: bool,
    pub fullscreen_borderless: bool,
    pub vsync: bool,
}

impl View for WindowSettings {
    type V = WindowSettings;

    open spec fn view(&self) -> WindowSettings {
        *self
    }
}

impl Default for WindowSettings {
    fn default() -> (r: Self)
        ensures
            r == <WindowSettings as Serializer>::default_spec(),
    {
        WindowSettings { fullscreen: false, fullscreen_borderless: true, vsync: true }
    }
}

impl Serializer for WindowSettings {
    open spec fn ser_spec(v: WindowSettings) -> JsonV {
        JsonV::Obj(
            seq![
                ("fullscreen"@, <bool as Serializer>::ser_spec(v.fullscreen)),
                ("fullscreen_borderless"@, <bool as Serializer>::ser_spec(v.fullscreen_borderless)),
                ("vsync"@, <bool as Serializer>::ser_spec(v.vsync)),
            ],
        )
    }

    open spec fn merge_spec(v: WindowSettings, j: JsonV) -> WindowSettings {
        WindowSettings {
            fullscreen: field_merge::<bool>(v.fullscreen, jv_get(j, "fullscreen"@)),
            fullscreen_borderless: field_merge::<bool>(
                v.fullscreen_borderless,
                jv_get(j, "fullscreen_borderless"@),
            ),
            vsync: field_merge::<bool>(v.vsync, jv_get(j, "vsync"@)),
        }
    }

    open spec fn default_spec() -> WindowSettings {
        WindowSettings { fullscreen: false, fullscreen_borderless: true, vsync: true }
    }

    fn serialize(&self) -> (r: Json) {
        let mut entries: Vec<(String, Json)> = Vec::new();
        entries.push(("fullscreen".to_owned(), self.fullscreen.serialize()));
        entries.push(("fullscreen_borderless".to_owned(), self.fullscreen_borderless.serialize()));
        entries.push(("vsync".to_owned(), self.vsync.serialize()));
        proof {
            lemma_obj_v(entries@);
            assert(obj_v(entries@) =~= (Self::ser_spec(self@))->Obj_0);
        }
        Json::Obj(entries)
    }

    fn deserialize(&mut self, json: Json) {
        match json {
            Json::Obj(mut entries) => {
                let ghost o0 = obj_v(entries@);
                proof {
                    reveal_strlit("fullscreen");
                    reveal_strlit("fullscreen_borderless");
                    reveal_strlit("vsync");
                    assert("fullscreen"@.len() != "fullscreen_borderless"@.len());
                    assert("fullscreen"@.len() != "vsync"@.len());
                    assert("fullscreen_borderless"@.len() != "vsync"@.len());
                }
                let k1 = "fullscreen".to_owned();
                if let Option::Some(v) = obj_take(&mut entries, &k1) {
                    self.fullscreen.deserialize(v);
                }
                proof {
                    lemma_obj_remove_other(o0, "fullscreen"@, "fullscreen_borderless"@);
                    lemma_obj_remove_other(o0, "fullscreen"@, "vsync"@);
                }
                let ghost o1 = obj_v(entries@);
                let k2 = "fullscreen_borderless".to_owned();
                if let Option::Some(v) = obj_take(&mut entries, &k2) {
                    self.fullscreen_borderless.deserialize(v);
                }
                proof {
                    lemma_obj_remove_other(o1, "fullscreen_borderless"@, "vsync"@);
                }
                let k3 = "vsync".to_owned();
                if let Option::Some(v) = obj_take(&mut entries, &k3) {
                    self.vsync.deserialize(v);
                }
            },
            _ => {},
        }
    }

    fn deserialize_new(json: Json) -> (r: Self) {
        let mut obj = WindowSettings::default();
        obj.deserialize(json);
        obj
    }
}

/// Round trip: deserializing a serialized object into any base object
/// restores every declared field; the field set covers the whole type.
pub proof fn lemma_window_settings_round_trip(b: WindowSettings, v: WindowSettings)
    ensures
        <WindowSettings as Serializer>::merge_spec(
            b,
            <WindowSettings as Serializer>::ser_spec(v),
        ) == v,
{
    let o = <WindowSettings as Serializer>::ser_spec(v)->Obj_0;
    reveal_strlit("fullscreen");
    reveal_strlit("fullscreen_borderless");
    reveal_strlit("vsync");
    assert("fullscreen"@.len() != "fullscreen_borderless"@.len());
    assert("fullscreen"@.len() != "vsync"@.len());
    assert("fullscreen_borderless"@.len() != "vsync"@.len());
    lemma_key_idx_is(o, "fullscreen"@, 0);
    lemma_key_idx_is(o, "fullscreen_borderless"@, 1);
    lemma_key_idx_is(o, "vsync"@, 2);
}

/// Sparse merge: a field whose key is absent from the document keeps its
/// prior value.
pub proof fn lemma_window_settings_sparse(v: WindowSettings, j: JsonV)
    ensures
        jv_get(j, "fullscreen"@) is None ==> <WindowSettings as Serializer>::merge_spec(
            v,
            j,
        ).fullscreen == v.fullscreen,
        jv_get(j, "fullscreen_borderless"@) is None ==> <WindowSettings as Serializer>::merge_spec(
            v,
            j,
        ).fullscreen_borderless == v.fullscreen_borderless,
        jv_get(j, "vsync"@) is None ==> <WindowSettings as Serializer>::merge_spec(v, j).vsync
            == v.vsync,
{
}

/// Unknown key tolerance: the merge reads only the declared field keys, so
/// extra keys cannot affect any declared field.
pub proof fn lemma_window_settings_unknown_keys(v: WindowSettings, j1: JsonV, j2: JsonV)
    requires
        jv_get(j1, "fullscreen"@) == jv_get(j2, "fullscreen"@),
        jv_get(j1, "fullscreen_borderless"@) == jv_get(j2, "fullscreen_borderless"@),
        jv_get(j1, "vsync"@) == jv_get(j2, "vsync"@),
    ensures
        <WindowSettings as Serializer>::merge_spec(v, j1) == <WindowSettings as Serializer>::merge_spec(
            v,
            j2,
        ),
{
}

/// Malformed field tolerance: a field whose document value has the wrong
/// shape keeps its prior value; the other fields merge independently.
pub proof fn lemma_window_settings_malformed(v: WindowSettings, j: JsonV)
    ensures
        (jv_get(j, "fullscreen"@) matches Option::Some(x) && !(x is Bool))
            ==> <WindowSettings as Serializer>::merge_spec(v, j).fullscreen == v.fullscreen,
        (jv_get(j, "fullscreen_borderless"@) matches Option::Some(x) && !(x is Bool))
            ==> <WindowSettings as Serializer>::merge_spec(v, j).fullscreen_borderless
            == v.fullscreen_borderless,
        (jv_get(j, "vsync"@) matches Option::Some(x) && !(x is Bool))
            ==> <WindowSettings as Serializer>::merge_spec(v, j).vsync == v.vsync,
{
}

} // verus!
