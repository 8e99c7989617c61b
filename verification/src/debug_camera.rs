//! Debug-camera switch state: which camera the viewer is looking through.

use vstd::prelude::*;
use crate::json::{Json, JsonV, jv_get, obj_v, obj_take, lemma_obj_v, lemma_key_idx_is};
use crate::serialization::{Serializer, field_merge};

verus! {

/// Persisted debug-camera state.
#[derive(Debug, Clone, Copy, PartialEq, Eq)]
pub struct DebugCameraState {
    pub viewing_debug_cam: bool,
}

impl View for DebugCameraState {
    type V = DebugCameraState;

    open spec fn view(&self) -> DebugCameraState {
        *self
    }
}

impl Default for DebugCameraState {
    fn default() -> (r: Self)
        ensures
            r == <DebugCameraState as Serializer>::default_spec(),
    {
        DebugCameraState { viewing_debug_cam: false }
    }
}

impl Serializer for DebugCameraState {
    open spec fn ser_spec(v: DebugCameraState) -> JsonV {
        JsonV::Obj(
            seq![("viewing_debug_cam"@, <bool as Serializer>::ser_spec(v.viewing_debug_cam))],
        )
    }

    open spec fn merge_spec(v: DebugCameraState, j: JsonV) -> DebugCameraState {
        DebugCameraState {
            viewing_debug_cam: field_merge::<bool>(
                v.viewing_debug_cam,
                jv_get(j, "viewing_debug_cam"@),
            ),
        }
    }

    open spec fn default_spec() -> DebugCameraState {
        DebugCameraState { viewing_debug_cam: false }
    }

    fn serialize(&self) -> (r: Json) {
        let mut entries: Vec<(String, Json)> = Vec::new();
        entries.push(("viewing_debug_cam".to_owned(), self.viewing_debug_cam.serialize()));
        proof {
            lemma_obj_v(entries@);
            assert(obj_v(entries@) =~= (Self::ser_spec(self@))->Obj_0);
        }
        Json::Obj(entries)
    }

    fn deserialize(&mut self, json: Json) {
        match json {
            Json::Obj(mut entries) => {
                let k1 = "viewing_debug_cam".to_owned();
                if let Option::Some(v) = obj_take(&mut entries, &k1) {
                    self.viewing_debug_cam.deserialize(v);
                }
            },
            _ => {},
        }
    }

    fn deserialize_new(json: Json) -> (r: Self) {
        let mut obj = DebugCameraState::default();
        obj.deserialize(json);
        obj
    }
}

/// Round trip: deserializing a serialized object into any base object
/// restores the declared field; the field set covers the whole type.
pub proof fn lemma_debug_camera_round_trip(b: DebugCameraState, v: DebugCameraState)
    ensures
        <DebugCameraState as Serializer>::merge_spec(
            b,
            <DebugCameraState as Serializer>::ser_spec(v),
        ) == v,
{
    let o = <DebugCameraState as Serializer>::ser_spec(v)->Obj_0;
    lemma_key_idx_is(o, "viewing_debug_cam"@, 0);
}

} // verus!
