//! Flycam component: free-flying camera tuning.
//!
//! Only the tunable fields belong to the declared field set; the
//! runtime-computed fields (current speed, current zoom target) are excluded
//! from persistence and always keep their in-memory values across a load.

use vstd::prelude::*;
use crate::json::{
    Json, JsonV, jv_get, obj_v, obj_take, lemma_obj_v, lemma_obj_remove_other, lemma_key_idx_is,
};
use crate::serialization::{Serializer, field_merge};

verus! {

/// The flycam component of the main camera entity. Speeds and angles are in
/// the engine's integer tuning units.
#[derive(Debug, Clone, Copy, PartialEq, Eq)]
pub struct Flycam {
    pub move_planar: bool,
    pub mouse_sens: i64,
    pub default_vfov: i64,
    pub base_speed: i64,
    pub speedup_factor: i64,
    /// Runtime state, not persisted.
    pub speed: i64,
    /// Runtime state, not persisted.
    pub vfov_target: i64,
}

impl View for Flycam {
    type V = Flycam;

    open spec fn view(&self) -> Flycam {
        *self
    }
}

impl Default for Flycam {
    fn default() -> (r: Self)
        ensures
            r == <Flycam as Serializer>::default_spec(),
    {
        Flycam {
            move_planar: true,
            mouse_sens: 2,
            default_vfov: 70,
            base_speed: 4,
            speedup_factor: 2,
            speed: 4,
            vfov_target: 70,
        }
    }
}

impl Serializer for Flycam {
    open spec fn ser_spec(v: Flycam) -> JsonV {
        JsonV::Obj(
            seq![
                ("move_planar"@, <bool as Serializer>::ser_spec(v.move_planar)),
                ("mouse_sens"@, <i64 as Serializer>::ser_spec(v.mouse_sens)),
                ("default_vfov"@, <i64 as Serializer>::ser_spec(v.default_vfov)),
                ("base_speed"@, <i64 as Serializer>::ser_spec(v.base_speed)),
                ("speedup_factor"@, <i64 as Serializer>::ser_spec(v.speedup_factor)),
            ],
        )
    }

    open spec fn merge_spec(v: Flycam, j: JsonV) -> Flycam {
        Flycam {
            move_planar: field_merge::<bool>(v.move_planar, jv_get(j, "move_planar"@)),
            mouse_sens: field_merge::<i64>(v.mouse_sens, jv_get(j, "mouse_sens"@)),
            default_vfov: field_merge::<i64>(v.default_vfov, jv_get(j, "default_vfov"@)),
            base_speed: field_merge::<i64>(v.base_speed, jv_get(j, "base_speed"@)),
            speedup_factor: field_merge::<i64>(v.speedup_factor, jv_get(j, "speedup_factor"@)),
            speed: v.speed,
            vfov_target: v.vfov_target,
        }
    }

    open spec fn default_spec() -> Flycam {
        Flycam {
            move_planar: true,
            mouse_sens: 2,
            default_vfov: 70,
            base_speed: 4,
            speedup_factor: 2,
            speed: 4,
            vfov_target: 70,
        }
    }

    fn serialize(&self) -> (r: Json) {
        let mut entries: Vec<(String, Json)> = Vec::new();
        entries.push(("move_planar".to_owned(), self.move_planar.serialize()));
        entries.push(("mouse_sens".to_owned(), self.mouse_sens.serialize()));
        entries.push(("default_vfov".to_owned(), self.default_vfov.serialize()));
        entries.push(("base_speed".to_owned(), self.base_speed.serialize()));
        entries.push(("speedup_factor".to_owned(), self.speedup_factor.serialize()));
        proof {
            lemma_obj_v(entries@);
            assert(obj_v(entries@) =~= (Self::ser_spec(self@))->Obj_0);
        }
        Json::Obj(entries)
    }

    fn deserialize(&mut self, json: Json) {
        match json {
            Json::Obj(mut entries) => {
                let ghost o0 = obj_v(entries@);
                proof {
                    reveal_strlit("move_planar");
                    reveal_strlit("mouse_sens");
                    reveal_strlit("default_vfov");
                    reveal_strlit("base_speed");
                    reveal_strlit("speedup_factor");
                    assert("move_planar"@.len() != "mouse_sens"@.len());
                    assert("move_planar"@.len() != "default_vfov"@.len());
                    assert("move_planar"@.len() != "base_speed"@.len());
                    assert("move_planar"@.len() != "speedup_factor"@.len());
                    assert("mouse_sens"@.len() != "default_vfov"@.len());
                    assert("mouse_sens"@[0] != "base_speed"@[0]);
                    assert("mouse_sens"@.len() != "speedup_factor"@.len());
                    assert("default_vfov"@.len() != "base_speed"@.len());
                    assert("default_vfov"@.len() != "speedup_factor"@.len());
                    assert("base_speed"@.len() != "speedup_factor"@.len());
                }
                let k1 = "move_planar".to_owned();
                if let Option::Some(v) = obj_take(&mut entries, &k1) {
                    self.move_planar.deserialize(v);
                }
                proof {
                    lemma_obj_remove_other(o0, "move_planar"@, "mouse_sens"@);
                    lemma_obj_remove_other(o0, "move_planar"@, "default_vfov"@);
                    lemma_obj_remove_other(o0, "move_planar"@, "base_speed"@);
                    lemma_obj_remove_other(o0, "move_planar"@, "speedup_factor"@);
                }
                let ghost o1 = obj_v(entries@);
                let k2 = "mouse_sens".to_owned();
                if let Option::Some(v) = obj_take(&mut entries, &k2) {
                    self.mouse_sens.deserialize(v);
                }
                proof {
                    lemma_obj_remove_other(o1, "mouse_sens"@, "default_vfov"@);
                    lemma_obj_remove_other(o1, "mouse_sens"@, "base_speed"@);
                    lemma_obj_remove_other(o1, "mouse_sens"@, "speedup_factor"@);
                }
                let ghost o2 = obj_v(entries@);
                let k3 = "default_vfov".to_owned();
                if let Option::Some(v) = obj_take(&mut entries, &k3) {
                    self.default_vfov.deserialize(v);
                }
                proof {
                    lemma_obj_remove_other(o2, "default_vfov"@, "base_speed"@);
                    lemma_obj_remove_other(o2, "default_vfov"@, "speedup_factor"@);
                }
                let ghost o3 = obj_v(entries@);
                let k4 = "base_speed".to_owned();
                if let Option::Some(v) = obj_take(&mut entries, &k4) {
                    self.base_speed.deserialize(v);
                }
                proof {
                    lemma_obj_remove_other(o3, "base_speed"@, "speedup_factor"@);
                }
                let k5 = "speedup_factor".to_owned();
                if let Option::Some(v) = obj_take(&mut entries, &k5) {
                    self.speedup_factor.deserialize(v);
                }
            },
            _ => {},
        }
    }

    fn deserialize_new(json: Json) -> (r: Self) {
        let mut obj = Flycam::default();
        obj.deserialize(json);
        obj
    }
}

/// Round trip: deserializing a serialized flycam into any base object
/// restores every declared field; the runtime fields, which are outside the
/// field set, keep the base object's values.
pub proof fn lemma_flycam_round_trip(b: Flycam, v: Flycam)
    ensures
        <Flycam as Serializer>::merge_spec(b, <Flycam as Serializer>::ser_spec(v)) == (Flycam {
            speed: b.speed,
            vfov_target: b.vfov_target,
            ..v
        }),
{
    let o = <Flycam as Serializer>::ser_spec(v)->Obj_0;
    reveal_strlit("move_planar");
    reveal_strlit("mouse_sens");
    reveal_strlit("default_vfov");
    reveal_strlit("base_speed");
    reveal_strlit("speedup_factor");
    assert("move_planar"@.len() != "mouse_sens"@.len());
    assert("move_planar"@.len() != "default_vfov"@.len());
    assert("move_planar"@.len() != "base_speed"@.len());
    assert("move_planar"@.len() != "speedup_factor"@.len());
    assert("mouse_sens"@.len() != "default_vfov"@.len());
    assert("mouse_sens"@[0] != "base_speed"@[0]);
    assert("mouse_sens"@.len() != "speedup_factor"@.len());
    assert("default_vfov"@.len() != "base_speed"@.len());
    assert("default_vfov"@.len() != "speedup_factor"@.len());
    assert("base_speed"@.len() != "speedup_factor"@.len());
    lemma_key_idx_is(o, "move_planar"@, 0);
    lemma_key_idx_is(o, "mouse_sens"@, 1);
    lemma_key_idx_is(o, "default_vfov"@, 2);
    lemma_key_idx_is(o, "base_speed"@, 3);
    lemma_key_idx_is(o, "speedup_factor"@, 4);
}

/// Sparse merge: a field whose key is absent from the document keeps its
/// prior value, and the runtime fields never change.
pub proof fn lemma_flycam_sparse(v: Flycam, j: JsonV)
    ensures
        jv_get(j, "move_planar"@) is None ==> <Flycam as Serializer>::merge_spec(v, j).move_planar
            == v.move_planar,
        jv_get(j, "mouse_sens"@) is None ==> <Flycam as Serializer>::merge_spec(v, j).mouse_sens
            == v.mouse_sens,
        jv_get(j, "default_vfov"@) is None ==> <Flycam as Serializer>::merge_spec(
            v,
            j,
        ).default_vfov == v.default_vfov,
        jv_get(j, "base_speed"@) is None ==> <Flycam as Serializer>::merge_spec(v, j).base_speed
            == v.base_speed,
        jv_get(j, "speedup_factor"@) is None ==> <Flycam as Serializer>::merge_spec(
            v,
            j,
        ).speedup_factor == v.speedup_factor,
        <Flycam as Serializer>::merge_spec(v, j).speed == v.speed,
        <Flycam as Serializer>::merge_spec(v, j).vfov_target == v.vfov_target,
{
}

/// Unknown key tolerance: the merge reads only the declared field keys, so
/// extra keys cannot affect any declared field.
pub proof fn lemma_flycam_unknown_keys(v: Flycam, j1: JsonV, j2: JsonV)
    requires
        jv_get(j1, "move_planar"@) == jv_get(j2, "move_planar"@),
        jv_get(j1, "mouse_sens"@) == jv_get(j2, "mouse_sens"@),
        jv_get(j1, "default_vfov"@) == jv_get(j2, "default_vfov"@),
        jv_get(j1, "base_speed"@) == jv_get(j2, "base_speed"@),
        jv_get(j1, "speedup_factor"@) == jv_get(j2, "speedup_factor"@),
    ensures
        <Flycam as Serializer>::merge_spec(v, j1) == <Flycam as Serializer>::merge_spec(v, j2),
{
}

/// Malformed field tolerance: a field whose document value has the wrong
/// shape keeps its prior value; the other fields merge independently.
pub proof fn lemma_flycam_malformed(v: Flycam, j: JsonV)
    ensures
        (jv_get(j, "move_planar"@) matches Option::Some(x) && !(x is Bool))
            ==> <Flycam as Serializer>::merge_spec(v, j).move_planar == v.move_planar,
        (jv_get(j, "mouse_sens"@) matches Option::Some(x) && !(x is Int))
            ==> <Flycam as Serializer>::merge_spec(v, j).mouse_sens == v.mouse_sens,
        (jv_get(j, "default_vfov"@) matches Option::Some(x) && !(x is Int))
            ==> <Flycam as Serializer>::merge_spec(v, j).default_vfov == v.default_vfov,
        (jv_get(j, "base_speed"@) matches Option::Some(x) && !(x is Int))
            ==> <Flycam as Serializer>::merge_spec(v, j).base_speed == v.base_speed,
        (jv_get(j, "speedup_factor"@) matches Option::Some(x) && !(x is Int))
            ==> <Flycam as Serializer>::merge_spec(v, j).speedup_factor == v.speedup_factor,
{
}

} // verus!
