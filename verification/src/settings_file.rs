//! The settings file driver: the fixed document layout, early extraction of
//! the render-backend subset, and the full load and save entry points.

use vstd::prelude::*;
use crate::app_control::WindowSettings;
use crate::debug_camera::DebugCameraState;
use crate::app_control::lemma_window_settings_round_trip;
use crate::debug_camera::lemma_debug_camera_round_trip;
use crate::flycam::{Flycam, lemma_flycam_round_trip};
use crate::json::{
    Json, JsonV, json_clone, jv_get, key_idx, obj_get, obj_get_v, obj_remove_v, obj_v, obj_take,
    lemma_obj_v, lemma_key_idx_is, lemma_obj_remove_other,
};
use crate::json_text::{parse_json_text, parsed_doc, printed_doc, to_pretty_text};
use crate::serialization::{Serializer, field_merge};
use crate::world::{
    Entity, EntityFilter, World, WorldV, first_match_idx, lemma_first_match_idx,
    lemma_match_count_zero, match_count,
};
use crate::world_serializer::{
    ResourceId, SourceKind, WorldSerializer, apply_src, lemma_apply_src_fields,
    lemma_apply_src_lookup, res_deser, res_ser, single_deser, single_ser, src_deser, src_ser,
    src_unambiguous, srcs_deser, srcs_ser, srcs_unambiguous, unambiguous, ws_deser, ws_ser,
};

verus! {

/// Mathematical model of the render settings.
pub struct RenderSettingsV {
    pub backends: Seq<char>,
    pub disable_validation_in_debug: bool,
}

/// Render configuration consumed before the engine starts: which rendering
/// backends may be selected, and whether debug-build validation is disabled.
#[derive(Debug, Clone, PartialEq, Eq)]
pub struct RenderSettings {
    pub backends: String,
    pub disable_validation_in_debug: bool,
}

impl View for RenderSettings {
    type V = RenderSettingsV;

    open spec fn view(&self) -> RenderSettingsV {
        RenderSettingsV {
            backends: self.backends@,
            disable_validation_in_debug: self.disable_validation_in_debug,
        }
    }
}

impl Default for RenderSettings {
    fn default() -> (r: Self)
        ensures
            r@ == <RenderSettings as Serializer>::default_spec(),
    {
        RenderSettings { backends: "vk, dx12, gl".to_owned(), disable_validation_in_debug: true }
    }
}

impl Serializer for RenderSettings {
    open spec fn ser_spec(v: RenderSettingsV) -> JsonV {
        JsonV::Obj(
            seq![
                ("backends"@, <String as Serializer>::ser_spec(v.backends)),
                (
                    "disable_validation_in_debug"@,
                    <bool as Serializer>::ser_spec(v.disable_validation_in_debug),
                ),
            ],
        )
    }

    open spec fn merge_spec(v: RenderSettingsV, j: JsonV) -> RenderSettingsV {
        RenderSettingsV {
            backends: field_merge::<String>(v.backends, jv_get(j, "backends"@)),
            disable_validation_in_debug: field_merge::<bool>(
                v.disable_validation_in_debug,
                jv_get(j, "disable_validation_in_debug"@),
            ),
        }
    }

    open spec fn default_spec() -> RenderSettingsV {
        RenderSettingsV { backends: "vk, dx12, gl"@, disable_validation_in_debug: true }
    }

    fn serialize(&self) -> (r: Json) {
        let mut entries: Vec<(String, Json)> = Vec::new();
        entries.push(("backends".to_owned(), self.backends.serialize()));
        entries.push(
            ("disable_validation_in_debug".to_owned(), self.disable_validation_in_debug.serialize()),
        );
        proof {
            lemma_obj_v(entries@);
            assert(obj_v(entries@) =~= (Self::ser_spec(self@))->Obj_0);
        }
        Json::Obj(entries)
    }

    fn deserialize(&mut self, json: Json) {
        match json {
            Json::Obj(mut entries) => {
                let ghost o0 = obj_v(entries@);
                proof {
                    reveal_strlit("backends");
                    reveal_strlit("disable_validation_in_debug");
                    assert("backends"@.len() != "disable_validation_in_debug"@.len());
                }
                let k1 = "backends".to_owned();
                if let Option::Some(v) = obj_take(&mut entries, &k1) {
                    self.backends.deserialize(v);
                }
                proof {
                    lemma_obj_remove_other(o0, "backends"@, "disable_validation_in_debug"@);
                }
                let k2 = "disable_validation_in_debug".to_owned();
                if let Option::Some(v) = obj_take(&mut entries, &k2) {
                    self.disable_validation_in_debug.deserialize(v);
                }
            },
            _ => {},
        }
    }

    fn deserialize_new(json: Json) -> (r: Self) {
        let mut obj = RenderSettings::default();
        obj.deserialize(json);
        obj
    }
}

/// Round trip: deserializing a serialized object into any base object
/// restores every declared field; the field set covers the whole type.
pub proof fn lemma_render_settings_round_trip(b: RenderSettingsV, v: RenderSettingsV)
    ensures
        <RenderSettings as Serializer>::merge_spec(
            b,
            <RenderSettings as Serializer>::ser_spec(v),
        ) == v,
{
    let o = <RenderSettings as Serializer>::ser_spec(v)->Obj_0;
    reveal_strlit("backends");
    reveal_strlit("disable_validation_in_debug");
    assert("backends"@.len() != "disable_validation_in_debug"@.len());
    lemma_key_idx_is(o, "backends"@, 0);
    lemma_key_idx_is(o, "disable_validation_in_debug"@, 1);
}

/// Sparse merge: a field whose key is absent from the document keeps its
/// prior value.
pub proof fn lemma_render_settings_sparse(v: RenderSettingsV, j: JsonV)
    ensures
        jv_get(j, "backends"@) is None ==> <RenderSettings as Serializer>::merge_spec(
            v,
            j,
        ).backends == v.backends,
        jv_get(j, "disable_validation_in_debug"@) is None
            ==> <RenderSettings as Serializer>::merge_spec(v, j).disable_validation_in_debug
            == v.disable_validation_in_debug,
{
}

/// Unknown key tolerance: the merge reads only the declared field keys.
pub proof fn lemma_render_settings_unknown_keys(v: RenderSettingsV, j1: JsonV, j2: JsonV)
    requires
        jv_get(j1, "backends"@) == jv_get(j2, "backends"@),
        jv_get(j1, "disable_validation_in_debug"@) == jv_get(j2, "disable_validation_in_debug"@),
    ensures
        <RenderSettings as Serializer>::merge_spec(v, j1) == <RenderSettings as Serializer>::merge_spec(
            v,
            j2,
        ),
{
}

/// Malformed field tolerance: a field whose document value has the wrong
/// shape keeps its prior value; the other fields merge independently.
pub proof fn lemma_render_settings_malformed(v: RenderSettingsV, j: JsonV)
    ensures
        (jv_get(j, "backends"@) matches Option::Some(x) && !(x is Str))
            ==> <RenderSettings as Serializer>::merge_spec(v, j).backends == v.backends,
        (jv_get(j, "disable_validation_in_debug"@) matches Option::Some(x) && !(x is Bool))
            ==> <RenderSettings as Serializer>::merge_spec(v, j).disable_validation_in_debug
            == v.disable_validation_in_debug,
{
}

// ---------------------------------------------------------------------------
// The settings file layout: which sources are persisted, under which names.
// ---------------------------------------------------------------------------

/// The fixed source layout of the settings file.
pub open spec fn is_file_layout(ws: WorldSerializer) -> bool {
    &&& ws.sources@.len() == 4
    &&& ws.sources@[0].0@ == "window"@
    &&& ws.sources@[0].1 == SourceKind::Resource(ResourceId::Window)
    &&& ws.sources@[1].0@ == "render"@
    &&& ws.sources@[1].1 == SourceKind::Resource(ResourceId::Render)
    &&& ws.sources@[2].0@ == "debug_cam"@
    &&& ws.sources@[2].1 == SourceKind::Resource(ResourceId::DebugCam)
    &&& ws.sources@[3].0@ == "main_cam"@
    &&& ws.sources@[3].1 == SourceKind::Single(EntityFilter::MainCamera)
}

/// The saved settings document: one entry per source, in layout order.
pub open spec fn settings_doc_v(w: WorldV) -> JsonV {
    JsonV::Obj(
        seq![
            ("window"@, res_ser(w, ResourceId::Window)),
            ("render"@, res_ser(w, ResourceId::Render)),
            ("debug_cam"@, res_ser(w, ResourceId::DebugCam)),
            ("main_cam"@, single_ser(w, EntityFilter::MainCamera)),
        ],
    )
}

/// The world after the settings document merges into it, source by source.
pub open spec fn settings_merge_v(w: WorldV, j: JsonV) -> WorldV {
    match j {
        JsonV::Obj(o) => {
            let s1 = apply_src(w, o, "window"@, SourceKind::Resource(ResourceId::Window));
            let s2 = apply_src(s1.0, s1.1, "render"@, SourceKind::Resource(ResourceId::Render));
            let s3 = apply_src(
                s2.0,
                s2.1,
                "debug_cam"@,
                SourceKind::Resource(ResourceId::DebugCam),
            );
            let s4 = apply_src(s3.0, s3.1, "main_cam"@, SourceKind::Single(
                EntityFilter::MainCamera,
            ));
            s4.0
        },
        _ => w,
    }
}

/// What the generic world-level serializer does on the settings layout.
pub proof fn lemma_file_layout(ws: WorldSerializer, w: WorldV, j: JsonV)
    requires
        is_file_layout(ws),
    ensures
        unambiguous(w, ws) == (match_count(w.entities, EntityFilter::MainCamera) <= 1),
        ws_ser(w, ws) == settings_doc_v(w),
        ws_deser(w, ws, j).0 == settings_merge_v(w, j),
{
    let s = ws.sources@;
    let s1 = s.drop_first();
    let s2 = s1.drop_first();
    let s3 = s2.drop_first();
    let s4 = s3.drop_first();
    assert(s1.len() == 3 && s1[0] == s[1] && s1[1] == s[2] && s1[2] == s[3]);
    assert(s2.len() == 2 && s2[0] == s[2] && s2[1] == s[3]);
    assert(s3.len() == 1 && s3[0] == s[3]);
    assert(s4.len() == 0);
    // Ambiguity: the three resource sources are trivially unambiguous.
    assert(src_unambiguous(w, SourceKind::Resource(ResourceId::Window)));
    assert(src_unambiguous(w, SourceKind::Resource(ResourceId::Render)));
    assert(src_unambiguous(w, SourceKind::Resource(ResourceId::DebugCam)));
    assert(src_ser(w, SourceKind::Resource(ResourceId::Window)) == res_ser(w, ResourceId::Window));
    assert(src_ser(w, SourceKind::Resource(ResourceId::Render)) == res_ser(w, ResourceId::Render));
    assert(src_ser(w, SourceKind::Resource(ResourceId::DebugCam)) == res_ser(
        w,
        ResourceId::DebugCam,
    ));
    assert(src_ser(w, SourceKind::Single(EntityFilter::MainCamera)) == single_ser(
        w,
        EntityFilter::MainCamera,
    ));
    assert(srcs_unambiguous(w, s4));
    assert(srcs_unambiguous(w, s3) == src_unambiguous(w, s[3].1));
    assert(srcs_unambiguous(w, s2) == src_unambiguous(w, s[3].1));
    assert(srcs_unambiguous(w, s1) == src_unambiguous(w, s[3].1));
    assert(srcs_unambiguous(w, s) == src_unambiguous(w, s[3].1));
    // Serialization: build the entry sequence source by source.
    assert(srcs_ser(w, s4) =~= Seq::<(Seq<char>, JsonV)>::empty());
    assert(srcs_ser(w, s3) =~= seq![("main_cam"@, single_ser(w, EntityFilter::MainCamera))]);
    assert(srcs_ser(w, s2) =~= seq![
        ("debug_cam"@, res_ser(w, ResourceId::DebugCam)),
        ("main_cam"@, single_ser(w, EntityFilter::MainCamera)),
    ]);
    assert(srcs_ser(w, s1) =~= seq![
        ("render"@, res_ser(w, ResourceId::Render)),
        ("debug_cam"@, res_ser(w, ResourceId::DebugCam)),
        ("main_cam"@, single_ser(w, EntityFilter::MainCamera)),
    ]);
    assert(srcs_ser(w, s) =~= settings_doc_v(w)->Obj_0);
    // Deserialization: fold the four steps.
    match j {
        JsonV::Obj(o) => {
            let t1 = apply_src(w, o, "window"@, SourceKind::Resource(ResourceId::Window));
            let t2 = apply_src(t1.0, t1.1, "render"@, SourceKind::Resource(ResourceId::Render));
            let t3 = apply_src(
                t2.0,
                t2.1,
                "debug_cam"@,
                SourceKind::Resource(ResourceId::DebugCam),
            );
            let t4 = apply_src(t3.0, t3.1, "main_cam"@, SourceKind::Single(
                EntityFilter::MainCamera,
            ));
            assert(srcs_deser(t4.0, s4, t4.1).0 == t4.0);
            assert(srcs_deser(t3.0, s3, t3.1).0 == t4.0);
            assert(srcs_deser(t2.0, s2, t2.1).0 == t4.0);
            assert(srcs_deser(t1.0, s1, t1.1).0 == t4.0);
            assert(srcs_deser(w, s, o).0 == t4.0);
        },
        _ => {},
    }
}

/// The four layout keys are pairwise distinct.
proof fn lemma_layout_keys_distinct()
    ensures
        "window"@ != "render"@,
        "window"@ != "debug_cam"@,
        "window"@ != "main_cam"@,
        "render"@ != "debug_cam"@,
        "render"@ != "main_cam"@,
        "debug_cam"@ != "main_cam"@,
{
    reveal_strlit("window");
    reveal_strlit("render");
    reveal_strlit("debug_cam");
    reveal_strlit("main_cam");
    assert("window"@[0] != "render"@[0]);
    assert("window"@.len() != "debug_cam"@.len());
    assert("window"@.len() != "main_cam"@.len());
    assert("render"@.len() != "debug_cam"@.len());
    assert("render"@.len() != "main_cam"@.len());
    assert("debug_cam"@.len() != "main_cam"@.len());
}

/// Sparse merge at the world level: a source whose key is absent from the
/// document keeps its live state, whatever the other sources do.
pub proof fn lemma_settings_sparse(w: WorldV, j: JsonV)
    ensures
        jv_get(j, "window"@) is None ==> settings_merge_v(w, j).window == w.window,
        jv_get(j, "render"@) is None ==> settings_merge_v(w, j).render == w.render,
        jv_get(j, "debug_cam"@) is None ==> settings_merge_v(w, j).debug_cam == w.debug_cam,
        jv_get(j, "main_cam"@) is None ==> settings_merge_v(w, j).entities == w.entities,
{
    lemma_layout_keys_distinct();
    match j {
        JsonV::Obj(o) => {
            let s1 = apply_src(w, o, "window"@, SourceKind::Resource(ResourceId::Window));
            let s2 = apply_src(s1.0, s1.1, "render"@, SourceKind::Resource(ResourceId::Render));
            let s3 = apply_src(
                s2.0,
                s2.1,
                "debug_cam"@,
                SourceKind::Resource(ResourceId::DebugCam),
            );
            let s4 = apply_src(s3.0, s3.1, "main_cam"@, SourceKind::Single(
                EntityFilter::MainCamera,
            ));
            lemma_apply_src_fields(w, o, "window"@, SourceKind::Resource(ResourceId::Window));
            lemma_apply_src_fields(
                s1.0,
                s1.1,
                "render"@,
                SourceKind::Resource(ResourceId::Render),
            );
            lemma_apply_src_fields(
                s2.0,
                s2.1,
                "debug_cam"@,
                SourceKind::Resource(ResourceId::DebugCam),
            );
            lemma_apply_src_fields(s3.0, s3.1, "main_cam"@, SourceKind::Single(
                EntityFilter::MainCamera,
            ));
            lemma_apply_src_lookup(
                w,
                o,
                "window"@,
                SourceKind::Resource(ResourceId::Window),
                "render"@,
            );
            lemma_apply_src_lookup(
                w,
                o,
                "window"@,
                SourceKind::Resource(ResourceId::Window),
                "debug_cam"@,
            );
            lemma_apply_src_lookup(
                w,
                o,
                "window"@,
                SourceKind::Resource(ResourceId::Window),
                "main_cam"@,
            );
            lemma_apply_src_lookup(
                s1.0,
                s1.1,
                "render"@,
                SourceKind::Resource(ResourceId::Render),
                "debug_cam"@,
            );
            lemma_apply_src_lookup(
                s1.0,
                s1.1,
                "render"@,
                SourceKind::Resource(ResourceId::Render),
                "main_cam"@,
            );
            lemma_apply_src_lookup(
                s2.0,
                s2.1,
                "debug_cam"@,
                SourceKind::Resource(ResourceId::DebugCam),
                "main_cam"@,
            );
        },
        _ => {},
    }
}

/// Unknown key tolerance at the world level: the merge reads only the four
/// layout keys, so two documents that agree on them merge identically, and
/// extra keys cannot affect any source.
pub proof fn lemma_settings_unknown_keys(w: WorldV, j1: JsonV, j2: JsonV)
    requires
        j1 is Obj,
        j2 is Obj,
        jv_get(j1, "window"@) == jv_get(j2, "window"@),
        jv_get(j1, "render"@) == jv_get(j2, "render"@),
        jv_get(j1, "debug_cam"@) == jv_get(j2, "debug_cam"@),
        jv_get(j1, "main_cam"@) == jv_get(j2, "main_cam"@),
    ensures
        settings_merge_v(w, j1) == settings_merge_v(w, j2),
{
    lemma_layout_keys_distinct();
    let o1 = j1->Obj_0;
    let o2 = j2->Obj_0;
    let a1 = apply_src(w, o1, "window"@, SourceKind::Resource(ResourceId::Window));
    let b1 = apply_src(w, o2, "window"@, SourceKind::Resource(ResourceId::Window));
    assert(a1.0 == b1.0);
    lemma_apply_src_lookup(w, o1, "window"@, SourceKind::Resource(ResourceId::Window), "render"@);
    lemma_apply_src_lookup(w, o2, "window"@, SourceKind::Resource(ResourceId::Window), "render"@);
    lemma_apply_src_lookup(
        w,
        o1,
        "window"@,
        SourceKind::Resource(ResourceId::Window),
        "debug_cam"@,
    );
    lemma_apply_src_lookup(
        w,
        o2,
        "window"@,
        SourceKind::Resource(ResourceId::Window),
        "debug_cam"@,
    );
    lemma_apply_src_lookup(
        w,
        o1,
        "window"@,
        SourceKind::Resource(ResourceId::Window),
        "main_cam"@,
    );
    lemma_apply_src_lookup(
        w,
        o2,
        "window"@,
        SourceKind::Resource(ResourceId::Window),
        "main_cam"@,
    );
    let a2 = apply_src(a1.0, a1.1, "render"@, SourceKind::Resource(ResourceId::Render));
    let b2 = apply_src(b1.0, b1.1, "render"@, SourceKind::Resource(ResourceId::Render));
    assert(a2.0 == b2.0);
    lemma_apply_src_lookup(
        a1.0,
        a1.1,
        "render"@,
        SourceKind::Resource(ResourceId::Render),
        "debug_cam"@,
    );
    lemma_apply_src_lookup(
        b1.0,
        b1.1,
        "render"@,
        SourceKind::Resource(ResourceId::Render),
        "debug_cam"@,
    );
    lemma_apply_src_lookup(
        a1.0,
        a1.1,
        "render"@,
        SourceKind::Resource(ResourceId::Render),
        "main_cam"@,
    );
    lemma_apply_src_lookup(
        b1.0,
        b1.1,
        "render"@,
        SourceKind::Resource(ResourceId::Render),
        "main_cam"@,
    );
    let a3 = apply_src(a2.0, a2.1, "debug_cam"@, SourceKind::Resource(ResourceId::DebugCam));
    let b3 = apply_src(b2.0, b2.1, "debug_cam"@, SourceKind::Resource(ResourceId::DebugCam));
    assert(a3.0 == b3.0);
    lemma_apply_src_lookup(
        a2.0,
        a2.1,
        "debug_cam"@,
        SourceKind::Resource(ResourceId::DebugCam),
        "main_cam"@,
    );
    lemma_apply_src_lookup(
        b2.0,
        b2.1,
        "debug_cam"@,
        SourceKind::Resource(ResourceId::DebugCam),
        "main_cam"@,
    );
    let a4 = apply_src(a3.0, a3.1, "main_cam"@, SourceKind::Single(EntityFilter::MainCamera));
    let b4 = apply_src(b3.0, b3.1, "main_cam"@, SourceKind::Single(EntityFilter::MainCamera));
    assert(a4.0 == b4.0);
}

/// Load order independence: each source reads only the value under its own
/// key, so its outcome is what dispatching that value alone would produce,
/// however the other sources fare.
pub proof fn lemma_settings_merge_componentwise(w: WorldV, j: JsonV)
    requires
        j is Obj,
    ensures
        settings_merge_v(w, j).window == (match jv_get(j, "window"@) {
            Option::Some(v) => res_deser(w, ResourceId::Window, v).window,
            Option::None => w.window,
        }),
        settings_merge_v(w, j).render == (match jv_get(j, "render"@) {
            Option::Some(v) => res_deser(w, ResourceId::Render, v).render,
            Option::None => w.render,
        }),
        settings_merge_v(w, j).debug_cam == (match jv_get(j, "debug_cam"@) {
            Option::Some(v) => res_deser(w, ResourceId::DebugCam, v).debug_cam,
            Option::None => w.debug_cam,
        }),
        settings_merge_v(w, j).entities == (match jv_get(j, "main_cam"@) {
            Option::Some(v) => single_deser(w, EntityFilter::MainCamera, v).entities,
            Option::None => w.entities,
        }),
{
    lemma_layout_keys_distinct();
    let o = j->Obj_0;
    let s1 = apply_src(w, o, "window"@, SourceKind::Resource(ResourceId::Window));
    let s2 = apply_src(s1.0, s1.1, "render"@, SourceKind::Resource(ResourceId::Render));
    let s3 = apply_src(s2.0, s2.1, "debug_cam"@, SourceKind::Resource(ResourceId::DebugCam));
    let s4 = apply_src(s3.0, s3.1, "main_cam"@, SourceKind::Single(EntityFilter::MainCamera));
    lemma_apply_src_fields(w, o, "window"@, SourceKind::Resource(ResourceId::Window));
    lemma_apply_src_fields(s1.0, s1.1, "render"@, SourceKind::Resource(ResourceId::Render));
    lemma_apply_src_fields(s2.0, s2.1, "debug_cam"@, SourceKind::Resource(ResourceId::DebugCam));
    lemma_apply_src_fields(s3.0, s3.1, "main_cam"@, SourceKind::Single(EntityFilter::MainCamera));
    lemma_apply_src_lookup(w, o, "window"@, SourceKind::Resource(ResourceId::Window), "render"@);
    lemma_apply_src_lookup(
        w,
        o,
        "window"@,
        SourceKind::Resource(ResourceId::Window),
        "debug_cam"@,
    );
    lemma_apply_src_lookup(
        w,
        o,
        "window"@,
        SourceKind::Resource(ResourceId::Window),
        "main_cam"@,
    );
    lemma_apply_src_lookup(
        s1.0,
        s1.1,
        "render"@,
        SourceKind::Resource(ResourceId::Render),
        "debug_cam"@,
    );
    lemma_apply_src_lookup(
        s1.0,
        s1.1,
        "render"@,
        SourceKind::Resource(ResourceId::Render),
        "main_cam"@,
    );
    lemma_apply_src_lookup(
        s2.0,
        s2.1,
        "debug_cam"@,
        SourceKind::Resource(ResourceId::DebugCam),
        "main_cam"@,
    );
    match obj_get_v(s1.1, "render"@) {
        Option::Some(v) => {
            assert(src_deser(s1.0, SourceKind::Resource(ResourceId::Render), v) == res_deser(
                s1.0,
                ResourceId::Render,
                v,
            ));
            assert(res_deser(s1.0, ResourceId::Render, v).render == res_deser(
                w,
                ResourceId::Render,
                v,
            ).render);
        },
        Option::None => {},
    }
    match obj_get_v(s2.1, "debug_cam"@) {
        Option::Some(v) => {
            assert(src_deser(s2.0, SourceKind::Resource(ResourceId::DebugCam), v) == res_deser(
                s2.0,
                ResourceId::DebugCam,
                v,
            ));
            assert(res_deser(s2.0, ResourceId::DebugCam, v).debug_cam == res_deser(
                w,
                ResourceId::DebugCam,
                v,
            ).debug_cam);
        },
        Option::None => {},
    }
    match obj_get_v(s3.1, "main_cam"@) {
        Option::Some(v) => {
            assert(src_deser(s3.0, SourceKind::Single(EntityFilter::MainCamera), v)
                == single_deser(s3.0, EntityFilter::MainCamera, v));
            assert(s3.0.entities == w.entities);
            assert(single_deser(s3.0, EntityFilter::MainCamera, v).entities == single_deser(
                w,
                EntityFilter::MainCamera,
                v,
            ).entities);
        },
        Option::None => {},
    }
}

/// Round trip through the settings layout: loading a saved document into a
/// world whose targeted resources are present and whose main camera is
/// unique restores every persisted value. The flycam's runtime fields, which
/// are outside its field set, keep the destination world's values.
pub proof fn lemma_settings_round_trip(w_src: WorldV, w_dst: WorldV)
    requires
        w_src.window is Some,
        w_src.render is Some,
        w_src.debug_cam is Some,
        w_dst.window is Some,
        w_dst.render is Some,
        w_dst.debug_cam is Some,
        match_count(w_src.entities, EntityFilter::MainCamera) == 1,
        match_count(w_dst.entities, EntityFilter::MainCamera) == 1,
    ensures
        ({
            let r = settings_merge_v(w_dst, settings_doc_v(w_src));
            let di = first_match_idx(w_dst.entities, EntityFilter::MainCamera);
            let si = first_match_idx(w_src.entities, EntityFilter::MainCamera);
            &&& r.window == w_src.window
            &&& r.render == w_src.render
            &&& r.debug_cam == w_src.debug_cam
            &&& r.entities == w_dst.entities.update(
                di,
                Entity {
                    flycam: Option::Some(
                        Flycam {
                            speed: w_dst.entities[di].flycam->0.speed,
                            vfov_target: w_dst.entities[di].flycam->0.vfov_target,
                            ..w_src.entities[si].flycam->0
                        },
                    ),
                    main_camera: w_dst.entities[di].main_camera,
                    debug_camera: w_dst.entities[di].debug_camera,
                },
            )
        }),
{
    reveal_strlit("window");
    reveal_strlit("render");
    reveal_strlit("debug_cam");
    reveal_strlit("main_cam");
    let o = settings_doc_v(w_src)->Obj_0;
    // First step: the window entry heads the document.
    assert(key_idx(o, "window"@) == 0);
    let v1 = res_ser(w_src, ResourceId::Window);
    assert(obj_get_v(o, "window"@) == Option::Some(v1));
    let t1 = apply_src(w_dst, o, "window"@, SourceKind::Resource(ResourceId::Window));
    assert(src_deser(w_dst, SourceKind::Resource(ResourceId::Window), v1) == res_deser(
        w_dst,
        ResourceId::Window,
        v1,
    ));
    lemma_window_settings_round_trip(w_dst.window->0, w_src.window->0);
    let o1 = obj_remove_v(o, "window"@);
    assert(o1 =~= seq![
        ("render"@, res_ser(w_src, ResourceId::Render)),
        ("debug_cam"@, res_ser(w_src, ResourceId::DebugCam)),
        ("main_cam"@, single_ser(w_src, EntityFilter::MainCamera)),
    ]);
    // Second step: render.
    assert(key_idx(o1, "render"@) == 0);
    let v2 = res_ser(w_src, ResourceId::Render);
    assert(obj_get_v(o1, "render"@) == Option::Some(v2));
    let t2 = apply_src(t1.0, t1.1, "render"@, SourceKind::Resource(ResourceId::Render));
    assert(src_deser(t1.0, SourceKind::Resource(ResourceId::Render), v2) == res_deser(
        t1.0,
        ResourceId::Render,
        v2,
    ));
    lemma_render_settings_round_trip(w_dst.render->0, w_src.render->0);
    let o2 = obj_remove_v(o1, "render"@);
    assert(o2 =~= seq![
        ("debug_cam"@, res_ser(w_src, ResourceId::DebugCam)),
        ("main_cam"@, single_ser(w_src, EntityFilter::MainCamera)),
    ]);
    // Third step: debug_cam.
    assert(key_idx(o2, "debug_cam"@) == 0);
    let v3 = res_ser(w_src, ResourceId::DebugCam);
    assert(obj_get_v(o2, "debug_cam"@) == Option::Some(v3));
    let t3 = apply_src(t2.0, t2.1, "debug_cam"@, SourceKind::Resource(ResourceId::DebugCam));
    assert(src_deser(t2.0, SourceKind::Resource(ResourceId::DebugCam), v3) == res_deser(
        t2.0,
        ResourceId::DebugCam,
        v3,
    ));
    lemma_debug_camera_round_trip(w_dst.debug_cam->0, w_src.debug_cam->0);
    let o3 = obj_remove_v(o2, "debug_cam"@);
    assert(o3 =~= seq![("main_cam"@, single_ser(w_src, EntityFilter::MainCamera))]);
    // Fourth step: the main camera's flycam component.
    assert(key_idx(o3, "main_cam"@) == 0);
    let v4 = single_ser(w_src, EntityFilter::MainCamera);
    assert(obj_get_v(o3, "main_cam"@) == Option::Some(v4));
    let t4 = apply_src(t3.0, t3.1, "main_cam"@, SourceKind::Single(EntityFilter::MainCamera));
    assert(src_deser(t3.0, SourceKind::Single(EntityFilter::MainCamera), v4) == single_deser(
        t3.0,
        EntityFilter::MainCamera,
        v4,
    ));
    assert(t3.0.entities == w_dst.entities);
    lemma_first_match_idx(w_src.entities, EntityFilter::MainCamera);
    lemma_first_match_idx(w_dst.entities, EntityFilter::MainCamera);
    lemma_match_count_zero(w_src.entities, EntityFilter::MainCamera);
    lemma_match_count_zero(w_dst.entities, EntityFilter::MainCamera);
    let si = first_match_idx(w_src.entities, EntityFilter::MainCamera);
    let di = first_match_idx(w_dst.entities, EntityFilter::MainCamera);
    assert(v4 == <Flycam as Serializer>::ser_spec(w_src.entities[si].flycam->0));
    lemma_flycam_round_trip(w_dst.entities[di].flycam->0, w_src.entities[si].flycam->0);
}

/// Builds the settings file's world-level serializer: the window, render,
/// and debug-camera resources, and the main camera's flycam component.
pub fn settings_file_serializer() -> (r: WorldSerializer)
    ensures
        is_file_layout(r),
{
    let mut sources: Vec<(String, SourceKind)> = Vec::new();
    sources.push(("window".to_owned(), SourceKind::Resource(ResourceId::Window)));
    sources.push(("render".to_owned(), SourceKind::Resource(ResourceId::Render)));
    sources.push(("debug_cam".to_owned(), SourceKind::Resource(ResourceId::DebugCam)));
    sources.push(("main_cam".to_owned(), SourceKind::Single(EntityFilter::MainCamera)));
    WorldSerializer { sources }
}

// ---------------------------------------------------------------------------
// The driver: save, early load, full load.
// ---------------------------------------------------------------------------

/// Serializes the settings layout and pretty-prints the document as the
/// settings file text; writing it to disk is the caller's concern.
pub fn save(world: &World) -> (r: String)
    requires
        match_count(world@.entities, EntityFilter::MainCamera) <= 1,
    ensures
        r@ == printed_doc(settings_doc_v(world@)),
{
    let ws = settings_file_serializer();
    proof {
        lemma_file_layout(ws, world@, JsonV::Null);
    }
    let doc = ws.serialize(world);
    to_pretty_text(&doc)
}

/// What the early load retains: the full parsed document for the later
/// world-level merge, and the render subset needed before the engine starts.
pub struct LoadResult {
    pub loaded_json: Json,
    pub render: RenderSettings,
}

/// The render settings that the early load extracts from a document: the
/// value under "render" merged into a freshly-defaulted instance.
pub open spec fn early_render_v(j: JsonV) -> RenderSettingsV {
    let rj = match jv_get(j, "render"@) {
        Option::Some(v) => v,
        Option::None => JsonV::Null,
    };
    <RenderSettings as Serializer>::merge_spec(<RenderSettings as Serializer>::default_spec(), rj)
}

/// Parses the settings file text, when there is one, and extracts the early
/// render subset; the full document is retained for the later world-level
/// merge. Unreadable and unparsable text both mean "no prior settings".
pub fn early_load_settings(text: Option<&String>) -> (r: Option<LoadResult>)
    ensures
        match r {
            Option::Some(lr) => {
                &&& text is Some
                &&& parsed_doc(text->0@) is Some
                &&& lr.loaded_json@ == parsed_doc(text->0@)->0
                &&& lr.render@ == early_render_v(parsed_doc(text->0@)->0)
            },
            Option::None => match text {
                Option::Some(t) => parsed_doc(t@) is None,
                Option::None => true,
            },
        },
{
    match text {
        Option::None => Option::None,
        Option::Some(t) => match parse_json_text(t.as_str()) {
            Option::None => Option::None,
            Option::Some(doc) => {
                let render_key = "render".to_owned();
                let render_json = match &doc {
                    Json::Obj(entries) => match obj_get(entries, &render_key) {
                        Option::Some(v) => json_clone(v),
                        Option::None => Json::Null,
                    },
                    _ => Json::Null,
                };
                let render = RenderSettings::deserialize_new(render_json);
                Option::Some(LoadResult { loaded_json: doc, render })
            },
        },
    }
}

/// The world with every targeted resource re-inserted at its compiled-in
/// default, entities untouched.
pub open spec fn with_default_resources(w: WorldV) -> WorldV {
    WorldV {
        window: Option::Some(<WindowSettings as Serializer>::default_spec()),
        render: Option::Some(<RenderSettings as Serializer>::default_spec()),
        debug_cam: Option::Some(<DebugCameraState as Serializer>::default_spec()),
        entities: w.entities,
    }
}

/// Re-inserts a freshly-defaulted instance of each targeted resource, then
/// merges the retained document into the live world. With no retained
/// document the defaults stand.
pub fn load_settings(world: &mut World, res: Option<LoadResult>)
    requires
        match_count(old(world)@.entities, EntityFilter::MainCamera) <= 1,
    ensures
        final(world)@ == match res {
            Option::Some(lr) => settings_merge_v(
                with_default_resources(old(world)@),
                lr.loaded_json@,
            ),
            Option::None => with_default_resources(old(world)@),
        },
{
    world.window = Option::Some(WindowSettings::default());
    world.render = Option::Some(RenderSettings::default());
    world.debug_cam = Option::Some(DebugCameraState::default());
    match res {
        Option::Some(lr) => {
            let ws = settings_file_serializer();
            proof {
                lemma_file_layout(ws, world@, lr.loaded_json@);
            }
            let mut doc = lr.loaded_json;
            ws.deserialize(world, &mut doc);
        },
        Option::None => {},
    }
}

/// The world after a full load from the given settings file text.
pub open spec fn load_spec(w: WorldV, text: Option<Seq<char>>) -> WorldV {
    match text {
        Option::Some(s) => match parsed_doc(s) {
            Option::Some(j) => settings_merge_v(with_default_resources(w), j),
            Option::None => with_default_resources(w),
        },
        Option::None => with_default_resources(w),
    }
}

/// Full load: the early parse of the settings file text followed by the
/// world-level merge.
pub fn load(world: &mut World, text: Option<&String>)
    requires
        match_count(old(world)@.entities, EntityFilter::MainCamera) <= 1,
    ensures
        final(world)@ == load_spec(
            old(world)@,
            match text {
                Option::Some(t) => Option::Some(t@),
                Option::None => Option::None,
            },
        ),
{
    let res = early_load_settings(text);
    load_settings(world, res);
}

} // verus!
