//! The world-level serializer: an ordered list of named sources, each a
//! singleton resource, a single-entity component accessor, or a nested
//! world-level serializer, mapped to and from one JSON object keyed by
//! source name. Nesting recurses to arbitrary depth.

use vstd::prelude::*;
use crate::app_control::WindowSettings;
use crate::debug_camera::DebugCameraState;
use crate::flycam::Flycam;
use crate::json::{
    Json, JsonV, key_idx, obj_v, obj_get_v, obj_remove_v, obj_take, lemma_obj_v,
    lemma_obj_remove_other,
};
use crate::serialization::Serializer;
use crate::settings_file::RenderSettings;
use crate::world::{
    Entity, EntityFilter, FindError, World, WorldV, match_count, first_match_idx, find_one,
    lemma_first_match_idx, lemma_match_count_zero,
};

verus! {

/// The resource types a resource-kind source can target.
#[derive(Debug, Clone, Copy, PartialEq, Eq)]
pub enum ResourceId {
    Window,
    Render,
    DebugCam,
}

/// One source of persisted state.
pub enum SourceKind {
    /// A singleton resource, identified by its type.
    Resource(ResourceId),
    /// The unique entity carrying the flycam shape and passing the filter.
    Single(EntityFilter),
    /// Another world-level serializer nested under this source's name.
    Nested(WorldSerializer),
}

/// An ordered list of named sources. Order fixes the key order of the saved
/// document; on load each source looks up its own key independently.
pub struct WorldSerializer {
    pub sources: Vec<(String, SourceKind)>,
}

// ---------------------------------------------------------------------------
// What serialize produces.
// ---------------------------------------------------------------------------

/// A resource source serializes the instance, or null when absent.
pub open spec fn res_ser(w: WorldV, id: ResourceId) -> JsonV {
    match id {
        ResourceId::Window => match w.window {
            Option::Some(x) => <WindowSettings as Serializer>::ser_spec(x),
            Option::None => JsonV::Null,
        },
        ResourceId::Render => match w.render {
            Option::Some(x) => <RenderSettings as Serializer>::ser_spec(x),
            Option::None => JsonV::Null,
        },
        ResourceId::DebugCam => match w.debug_cam {
            Option::Some(x) => <DebugCameraState as Serializer>::ser_spec(x),
            Option::None => JsonV::Null,
        },
    }
}

/// A single-entity source serializes the unique match's component, or null
/// when no entity matches.
pub open spec fn single_ser(w: WorldV, f: EntityFilter) -> JsonV {
    if match_count(w.entities, f) == 0 {
        JsonV::Null
    } else {
        <Flycam as Serializer>::ser_spec(w.entities[first_match_idx(w.entities, f)].flycam->0)
    }
}

pub open spec fn src_ser(w: WorldV, kind: SourceKind) -> JsonV
    decreases kind,
{
    match kind {
        SourceKind::Resource(id) => res_ser(w, id),
        SourceKind::Single(f) => single_ser(w, f),
        SourceKind::Nested(ws) => ws_ser(w, ws),
    }
}

pub open spec fn srcs_ser(w: WorldV, srcs: Seq<(String, SourceKind)>) -> Seq<(Seq<char>, JsonV)>
    decreases srcs,
{
    if srcs.len() == 0 {
        Seq::empty()
    } else {
        seq![(srcs[0].0@, src_ser(w, srcs[0].1))] + srcs_ser(w, srcs.drop_first())
    }
}

/// One entry per source, in source order, each keyed by the source's name.
pub open spec fn ws_ser(w: WorldV, ws: WorldSerializer) -> JsonV
    decreases ws,
{
    JsonV::Obj(srcs_ser(w, ws.sources@))
}

/// `srcs_ser` maps the source list pointwise.
pub proof fn lemma_srcs_ser(w: WorldV, srcs: Seq<(String, SourceKind)>)
    ensures
        srcs_ser(w, srcs).len() == srcs.len(),
        forall|i: int| 0 <= i < srcs.len() ==> srcs_ser(w, srcs)[i] == (
            srcs[i].0@,
            src_ser(w, srcs[i].1),
        ),
    decreases srcs.len(),
{
    if srcs.len() > 0 {
        lemma_srcs_ser(w, srcs.drop_first());
    }
}

// ---------------------------------------------------------------------------
// What deserialize produces.
// ---------------------------------------------------------------------------

/// A resource source merges into the present instance; an absent resource is
/// left absent, and nothing is inserted.
pub open spec fn res_deser(w: WorldV, id: ResourceId, v: JsonV) -> WorldV {
    match id {
        ResourceId::Window => WorldV {
            window: match w.window {
                Option::Some(x) => Option::Some(<WindowSettings as Serializer>::merge_spec(x, v)),
                Option::None => Option::None,
            },
            render: w.render,
            debug_cam: w.debug_cam,
            entities: w.entities,
        },
        ResourceId::Render => WorldV {
            window: w.window,
            render: match w.render {
                Option::Some(x) => Option::Some(<RenderSettings as Serializer>::merge_spec(x, v)),
                Option::None => Option::None,
            },
            debug_cam: w.debug_cam,
            entities: w.entities,
        },
        ResourceId::DebugCam => WorldV {
            window: w.window,
            render: w.render,
            debug_cam: match w.debug_cam {
                Option::Some(x) => Option::Some(
                    <DebugCameraState as Serializer>::merge_spec(x, v),
                ),
                Option::None => Option::None,
            },
            entities: w.entities,
        },
    }
}

/// A single-entity source merges into the unique match's component; with no
/// match the world is unchanged.
pub open spec fn single_deser(w: WorldV, f: EntityFilter, v: JsonV) -> WorldV {
    if match_count(w.entities, f) == 1 {
        let i = first_match_idx(w.entities, f);
        let e = w.entities[i];
        WorldV {
            window: w.window,
            render: w.render,
            debug_cam: w.debug_cam,
            entities: w.entities.update(
                i,
                Entity {
                    flycam: Option::Some(<Flycam as Serializer>::merge_spec(e.flycam->0, v)),
                    main_camera: e.main_camera,
                    debug_camera: e.debug_camera,
                },
            ),
        }
    } else {
        w
    }
}

pub open spec fn src_deser(w: WorldV, kind: SourceKind, v: JsonV) -> WorldV
    decreases kind, 0int,
{
    match kind {
        SourceKind::Resource(id) => res_deser(w, id, v),
        SourceKind::Single(f) => single_deser(w, f, v),
        SourceKind::Nested(ws) => ws_deser(w, ws, v).0,
    }
}

/// One deserialization step: if the document holds the source's name, the
/// entry is consumed and dispatched; otherwise nothing happens.
pub open spec fn apply_src(
    w: WorldV,
    o: Seq<(Seq<char>, JsonV)>,
    key: Seq<char>,
    kind: SourceKind,
) -> (WorldV, Seq<(Seq<char>, JsonV)>)
    decreases kind, 1int,
{
    match obj_get_v(o, key) {
        Option::Some(v) => (src_deser(w, kind, v), obj_remove_v(o, key)),
        Option::None => (w, o),
    }
}

pub open spec fn srcs_deser(
    w: WorldV,
    srcs: Seq<(String, SourceKind)>,
    o: Seq<(Seq<char>, JsonV)>,
) -> (WorldV, Seq<(Seq<char>, JsonV)>)
    decreases srcs, 0int,
{
    if srcs.len() == 0 {
        (w, o)
    } else {
        let st = apply_src(w, o, srcs[0].0@, srcs[0].1);
        srcs_deser(st.0, srcs.drop_first(), st.1)
    }
}

/// The world and the remaining document after deserializing: each source in
/// order consumes its own key; a document that is not an object changes
/// nothing.
pub open spec fn ws_deser(w: WorldV, ws: WorldSerializer, j: JsonV) -> (WorldV, JsonV)
    decreases ws, 0int,
{
    match j {
        JsonV::Obj(o) => {
            let p = srcs_deser(w, ws.sources@, o);
            (p.0, JsonV::Obj(p.1))
        },
        _ => (w, j),
    }
}

/// Unfolding `srcs_deser` at the back: processing one more source applies
/// one more step.
pub proof fn lemma_srcs_deser_snoc(
    w: WorldV,
    srcs: Seq<(String, SourceKind)>,
    o: Seq<(Seq<char>, JsonV)>,
    i: int,
)
    requires
        0 <= i < srcs.len(),
    ensures
        srcs_deser(w, srcs.take(i + 1), o).0 == apply_src(
            srcs_deser(w, srcs.take(i), o).0,
            srcs_deser(w, srcs.take(i), o).1,
            srcs[i].0@,
            srcs[i].1,
        ).0,
        srcs_deser(w, srcs.take(i + 1), o).1 == apply_src(
            srcs_deser(w, srcs.take(i), o).0,
            srcs_deser(w, srcs.take(i), o).1,
            srcs[i].0@,
            srcs[i].1,
        ).1,
    decreases i,
{
    let ti1 = srcs.take(i + 1);
    let ti = srcs.take(i);
    let st = apply_src(w, o, srcs[0].0@, srcs[0].1);
    if i == 0 {
        assert(ti =~= Seq::<(String, SourceKind)>::empty());
        assert(srcs_deser(w, ti, o).0 == w);
        assert(srcs_deser(w, ti, o).1 == o);
        assert(ti1.len() == 1 && ti1[0] == srcs[0]);
        assert(ti1.drop_first() =~= Seq::<(String, SourceKind)>::empty());
        assert(srcs_deser(st.0, ti1.drop_first(), st.1).0 == st.0);
        assert(srcs_deser(st.0, ti1.drop_first(), st.1).1 == st.1);
        assert(srcs_deser(w, ti1, o).0 == st.0);
        assert(srcs_deser(w, ti1, o).1 == st.1);
    } else {
        let s1 = srcs.drop_first();
        assert(ti1[0] == srcs[0]);
        assert(ti[0] == srcs[0]);
        assert(ti1.drop_first() =~= s1.take(i));
        assert(ti.drop_first() =~= s1.take(i - 1));
        lemma_srcs_deser_snoc(st.0, s1, st.1, i - 1);
        assert(s1[i - 1] == srcs[i]);
        assert(srcs_deser(w, ti1, o).0 == srcs_deser(st.0, s1.take(i), st.1).0);
        assert(srcs_deser(w, ti1, o).1 == srcs_deser(st.0, s1.take(i), st.1).1);
        assert(srcs_deser(w, ti, o).0 == srcs_deser(st.0, s1.take(i - 1), st.1).0);
        assert(srcs_deser(w, ti, o).1 == srcs_deser(st.0, s1.take(i - 1), st.1).1);
    }
}

// ---------------------------------------------------------------------------
// Ambiguity: more than one entity matching a single-entity source is a
// programmer error; every entry point excludes it.
// ---------------------------------------------------------------------------

pub open spec fn src_unambiguous(w: WorldV, kind: SourceKind) -> bool
    decreases kind,
{
    match kind {
        SourceKind::Resource(_) => true,
        SourceKind::Single(f) => match_count(w.entities, f) <= 1,
        SourceKind::Nested(ws) => unambiguous(w, ws),
    }
}

pub open spec fn srcs_unambiguous(w: WorldV, srcs: Seq<(String, SourceKind)>) -> bool
    decreases srcs,
{
    if srcs.len() == 0 {
        true
    } else {
        src_unambiguous(w, srcs[0].1) && srcs_unambiguous(w, srcs.drop_first())
    }
}

/// No single-entity source anywhere in the serializer matches more than one
/// entity of `w`.
pub open spec fn unambiguous(w: WorldV, ws: WorldSerializer) -> bool
    decreases ws,
{
    srcs_unambiguous(w, ws.sources@)
}

/// `srcs_unambiguous` holds exactly when every source is unambiguous.
pub proof fn lemma_srcs_unambiguous(w: WorldV, srcs: Seq<(String, SourceKind)>)
    ensures
        srcs_unambiguous(w, srcs) <==> (forall|i: int|
            0 <= i < srcs.len() ==> src_unambiguous(w, (#[trigger] srcs[i]).1)),
    decreases srcs.len(),
{
    if srcs.len() > 0 {
        lemma_srcs_unambiguous(w, srcs.drop_first());
        assert(forall|i: int|
            0 <= i < srcs.drop_first().len() ==> srcs.drop_first()[i] == srcs[i + 1]);
        if srcs_unambiguous(w, srcs) {
            assert forall|i: int| 0 <= i < srcs.len() implies src_unambiguous(
                w,
                (#[trigger] srcs[i]).1,
            ) by {
                if i > 0 {
                    assert(srcs.drop_first()[i - 1] == srcs[i]);
                }
            }
        }
    }
}

// ---------------------------------------------------------------------------
// Deserialization never spawns, despawns, or re-shapes entities, so
// ambiguity judged against the starting world stays valid throughout.
// ---------------------------------------------------------------------------

/// Same component shape: flycam presence and markers agree.
pub open spec fn shape_eq(a: Entity, b: Entity) -> bool {
    &&& (a.flycam is Some <==> b.flycam is Some)
    &&& a.main_camera == b.main_camera
    &&& a.debug_camera == b.debug_camera
}

pub open spec fn same_shape(a: Seq<Entity>, b: Seq<Entity>) -> bool {
    b.len() == a.len() && forall|i: int| 0 <= i < a.len() ==> shape_eq(a[i], #[trigger] b[i])
}

pub proof fn lemma_same_shape_match_count(a: Seq<Entity>, b: Seq<Entity>, f: EntityFilter)
    requires
        same_shape(a, b),
    ensures
        match_count(a, f) == match_count(b, f),
    decreases a.len(),
{
    if a.len() > 0 {
        assert(forall|i: int| 0 <= i < a.len() - 1 ==> a.drop_last()[i] == a[i]);
        assert(forall|i: int| 0 <= i < b.len() - 1 ==> b.drop_last()[i] == b[i]);
        assert(same_shape(a.drop_last(), b.drop_last()));
        lemma_same_shape_match_count(a.drop_last(), b.drop_last(), f);
        assert(shape_eq(a[a.len() - 1], b[a.len() - 1]));
    }
}

pub proof fn lemma_src_deser_shape(w: WorldV, kind: SourceKind, v: JsonV)
    ensures
        same_shape(w.entities, src_deser(w, kind, v).entities),
    decreases kind,
{
    match kind {
        SourceKind::Resource(_) => {},
        SourceKind::Single(f) => {
            if match_count(w.entities, f) == 1 {
                lemma_match_count_zero(w.entities, f);
                lemma_first_match_idx(w.entities, f);
            }
        },
        SourceKind::Nested(ws) => {
            lemma_ws_deser_shape(w, ws, v);
        },
    }
}

pub proof fn lemma_srcs_deser_shape(
    w: WorldV,
    srcs: Seq<(String, SourceKind)>,
    o: Seq<(Seq<char>, JsonV)>,
)
    ensures
        same_shape(w.entities, srcs_deser(w, srcs, o).0.entities),
    decreases srcs,
{
    if srcs.len() == 0 {
    } else {
        let st = apply_src(w, o, srcs[0].0@, srcs[0].1);
        lemma_src_deser_shape(w, srcs[0].1, obj_get_v(o, srcs[0].0@)->0);
        lemma_srcs_deser_shape(st.0, srcs.drop_first(), st.1);
    }
}

pub proof fn lemma_ws_deser_shape(w: WorldV, ws: WorldSerializer, j: JsonV)
    ensures
        same_shape(w.entities, ws_deser(w, ws, j).0.entities),
    decreases ws,
{
    match j {
        JsonV::Obj(o) => {
            lemma_srcs_deser_shape(w, ws.sources@, o);
        },
        _ => {},
    }
}

/// Ambiguity does not depend on anything deserialization changes.
pub proof fn lemma_src_unamb_shape(w1: WorldV, w2: WorldV, kind: SourceKind)
    requires
        same_shape(w1.entities, w2.entities),
        src_unambiguous(w1, kind),
    ensures
        src_unambiguous(w2, kind),
    decreases kind,
{
    match kind {
        SourceKind::Resource(_) => {},
        SourceKind::Single(f) => {
            lemma_same_shape_match_count(w1.entities, w2.entities, f);
        },
        SourceKind::Nested(ws) => {
            lemma_srcs_unamb_shape(w1, w2, ws.sources@);
        },
    }
}

pub proof fn lemma_srcs_unamb_shape(w1: WorldV, w2: WorldV, srcs: Seq<(String, SourceKind)>)
    requires
        same_shape(w1.entities, w2.entities),
        srcs_unambiguous(w1, srcs),
    ensures
        srcs_unambiguous(w2, srcs),
    decreases srcs,
{
    if srcs.len() > 0 {
        lemma_src_unamb_shape(w1, w2, srcs[0].1);
        lemma_srcs_unamb_shape(w1, w2, srcs.drop_first());
    }
}

// ---------------------------------------------------------------------------
// Laws of the source kinds.
// ---------------------------------------------------------------------------

/// Deserializing a resource-kind source against a world that lacks the
/// resource is a no-op: nothing changes and nothing is inserted.
pub proof fn lemma_missing_resource_noop(w: WorldV, id: ResourceId, v: JsonV)
    requires
        match id {
            ResourceId::Window => w.window is None,
            ResourceId::Render => w.render is None,
            ResourceId::DebugCam => w.debug_cam is None,
        },
    ensures
        res_deser(w, id, v) == w,
{
}

/// A single-entity source with no matching entity serializes to null, and
/// deserializing against the same world leaves it unchanged.
pub proof fn lemma_zero_match_single(w: WorldV, f: EntityFilter, v: JsonV)
    requires
        match_count(w.entities, f) == 0,
    ensures
        single_ser(w, f) == JsonV::Null,
        single_deser(w, f, v) == w,
{
}

// ---------------------------------------------------------------------------
// Round-trip laws.
// ---------------------------------------------------------------------------

/// The world after every source, in order, merges exactly the value it
/// itself would serialize out of `w_src`.
pub open spec fn deser_all(
    w_dst: WorldV,
    w_src: WorldV,
    srcs: Seq<(String, SourceKind)>,
) -> WorldV
    decreases srcs, 0int,
{
    if srcs.len() == 0 {
        w_dst
    } else {
        deser_all(
            src_deser(w_dst, srcs[0].1, src_ser(w_src, srcs[0].1)),
            w_src,
            srcs.drop_first(),
        )
    }
}

/// Save-load alignment: loading a document that was just saved hands each
/// source, in order, exactly the value that source wrote — even when two
/// sources share a name, because each load step consumes the first
/// occurrence of its key, which is the entry its own save step wrote.
pub proof fn lemma_save_load_alignment(
    w_dst: WorldV,
    w_src: WorldV,
    srcs: Seq<(String, SourceKind)>,
)
    ensures
        srcs_deser(w_dst, srcs, srcs_ser(w_src, srcs)).0 == deser_all(w_dst, w_src, srcs),
    decreases srcs,
{
    if srcs.len() > 0 {
        let o = srcs_ser(w_src, srcs);
        let key = srcs[0].0@;
        let value = src_ser(w_src, srcs[0].1);
        let rest = srcs_ser(w_src, srcs.drop_first());
        assert(o == seq![(key, value)] + rest);
        assert(o[0] == (key, value));
        assert(key_idx(o, key) == 0);
        assert(obj_get_v(o, key) == Option::Some(value));
        assert(obj_remove_v(o, key) =~= rest);
        let st = apply_src(w_dst, o, key, srcs[0].1);
        assert(st.0 == src_deser(w_dst, srcs[0].1, value));
        assert(st.1 == obj_remove_v(o, key));
        lemma_save_load_alignment(st.0, w_src, srcs.drop_first());
        assert(srcs_deser(st.0, srcs.drop_first(), rest).0 == deser_all(
            st.0,
            w_src,
            srcs.drop_first(),
        ));
    }
}

/// A resource or single-entity step touches only its own slice of the
/// world, and an absent key makes the step a no-op.
pub proof fn lemma_apply_src_fields(
    w: WorldV,
    o: Seq<(Seq<char>, JsonV)>,
    key: Seq<char>,
    kind: SourceKind,
)
    ensures
        kind matches SourceKind::Resource(id) ==> {
            let r = apply_src(w, o, key, kind).0;
            &&& (id != ResourceId::Window ==> r.window == w.window)
            &&& (id != ResourceId::Render ==> r.render == w.render)
            &&& (id != ResourceId::DebugCam ==> r.debug_cam == w.debug_cam)
            &&& r.entities == w.entities
        },
        kind is Single ==> {
            let r = apply_src(w, o, key, kind).0;
            &&& r.window == w.window
            &&& r.render == w.render
            &&& r.debug_cam == w.debug_cam
        },
        obj_get_v(o, key) is None ==> apply_src(w, o, key, kind).0 == w,
{
    match obj_get_v(o, key) {
        Option::Some(v) => {
            assert(apply_src(w, o, key, kind).0 == src_deser(w, kind, v));
            match kind {
                SourceKind::Resource(id) => {
                    assert(src_deser(w, kind, v) == res_deser(w, id, v));
                },
                SourceKind::Single(f) => {
                    assert(src_deser(w, kind, v) == single_deser(w, f, v));
                },
                SourceKind::Nested(_) => {},
            }
        },
        Option::None => {},
    }
}

/// A step consumes at most its own key: every other key's lookup survives.
pub proof fn lemma_apply_src_lookup(
    w: WorldV,
    o: Seq<(Seq<char>, JsonV)>,
    key: Seq<char>,
    kind: SourceKind,
    k: Seq<char>,
)
    requires
        k != key,
    ensures
        obj_get_v(apply_src(w, o, key, kind).1, k) == obj_get_v(o, k),
{
    match obj_get_v(o, key) {
        Option::Some(_) => {
            lemma_obj_remove_other(o, key, k);
        },
        Option::None => {},
    }
}

/// Nesting is transparent to a round trip: a serializer holding one nested
/// serializer saves the inner document under its source's name, and loading
/// the saved two-level document dispatches the inner document back whole.
pub proof fn lemma_nested_round_trip(
    w_src: WorldV,
    w_dst: WorldV,
    outer: WorldSerializer,
    inner: WorldSerializer,
)
    requires
        outer.sources@.len() == 1,
        outer.sources@[0].1 == SourceKind::Nested(inner),
    ensures
        ws_deser(w_dst, outer, ws_ser(w_src, outer)).0 == ws_deser(
            w_dst,
            inner,
            ws_ser(w_src, inner),
        ).0,
{
    let s = outer.sources@;
    let key = s[0].0@;
    let innerdoc = ws_ser(w_src, inner);
    assert(src_ser(w_src, s[0].1) == innerdoc);
    assert(srcs_ser(w_src, s.drop_first()) =~= Seq::<(Seq<char>, JsonV)>::empty());
    let o = srcs_ser(w_src, s);
    assert(o =~= seq![(key, innerdoc)]);
    assert(key_idx(o, key) == 0);
    assert(obj_get_v(o, key) == Option::Some(innerdoc));
    let st = apply_src(w_dst, o, key, s[0].1);
    assert(st.0 == src_deser(w_dst, s[0].1, innerdoc));
    assert(src_deser(w_dst, s[0].1, innerdoc) == ws_deser(w_dst, inner, innerdoc).0);
    assert(srcs_deser(st.0, s.drop_first(), st.1).0 == st.0);
    assert(srcs_deser(w_dst, s, o).0 == st.0);
}

// ---------------------------------------------------------------------------
// Executable serializer.
// ---------------------------------------------------------------------------

/// Serializes a resource source: the instance's document value, or null when
/// the resource is absent.
pub fn serialize_resource(world: &World, id: ResourceId) -> (r: Json)
    ensures
        r@ == res_ser(world@, id),
{
    match id {
        ResourceId::Window => match &world.window {
            Option::Some(x) => x.serialize(),
            Option::None => Json::Null,
        },
        ResourceId::Render => match &world.render {
            Option::Some(x) => x.serialize(),
            Option::None => Json::Null,
        },
        ResourceId::DebugCam => match &world.debug_cam {
            Option::Some(x) => x.serialize(),
            Option::None => Json::Null,
        },
    }
}

/// Serializes a single-entity source: the unique match's component, or null
/// when no entity matches. More than one match is excluded by contract.
pub fn _serialize_single(world: &World, f: EntityFilter) -> (r: Json)
    requires
        match_count(world@.entities, f) <= 1,
    ensures
        r@ == single_ser(world@, f),
{
    match find_one(world, f) {
        Result::Ok(i) => {
            proof {
                lemma_match_count_zero(world@.entities, f);
            }
            match &world.entities[i].flycam {
                Option::Some(c) => c.serialize(),
                Option::None => {
                    proof {
                        assert(false);
                    }
                    Json::Null
                },
            }
        },
        Result::Err(FindError::NoEntities) => Json::Null,
        Result::Err(FindError::MultipleEntities) => {
            proof {
                assert(false);
            }
            Json::Null
        },
    }
}

fn serialize_source(world: &World, kind: &SourceKind) -> (r: Json)
    requires
        src_unambiguous(world@, *kind),
    ensures
        r@ == src_ser(world@, *kind),
    decreases *kind,
{
    match kind {
        SourceKind::Resource(id) => serialize_resource(world, *id),
        SourceKind::Single(f) => _serialize_single(world, *f),
        SourceKind::Nested(ws) => ws.serialize(world),
    }
}

/// Deserializes a resource source: merges into the present instance; when
/// the resource is absent nothing happens and nothing is inserted.
pub fn deserialize_resource(world: &mut World, id: ResourceId, value: Json)
    ensures
        final(world)@ == res_deser(old(world)@, id, value@),
{
    match id {
        ResourceId::Window => match &mut world.window {
            Option::Some(x) => x.deserialize(value),
            Option::None => {},
        },
        ResourceId::Render => match &mut world.render {
            Option::Some(x) => x.deserialize(value),
            Option::None => {},
        },
        ResourceId::DebugCam => match &mut world.debug_cam {
            Option::Some(x) => x.deserialize(value),
            Option::None => {},
        },
    }
}

/// Deserializes a single-entity source: merges into the unique match's
/// component; with no match the world is left unchanged. More than one
/// match is excluded by contract.
pub fn _deserialize_single(world: &mut World, f: EntityFilter, value: Json)
    requires
        match_count(old(world)@.entities, f) <= 1,
    ensures
        final(world)@ == single_deser(old(world)@, f, value@),
{
    match find_one(world, f) {
        Result::Ok(i) => {
            let mut e = world.entities[i];
            match &mut e.flycam {
                Option::Some(c) => c.deserialize(value),
                Option::None => {},
            }
            world.entities[i] = e;
        },
        Result::Err(FindError::NoEntities) => {},
        Result::Err(FindError::MultipleEntities) => {
            proof {
                assert(false);
            }
        },
    }
}

fn deserialize_source(world: &mut World, kind: &SourceKind, value: Json)
    requires
        src_unambiguous(old(world)@, *kind),
    ensures
        final(world)@ == src_deser(old(world)@, *kind, value@),
    decreases *kind,
{
    match kind {
        SourceKind::Resource(id) => deserialize_resource(world, *id, value),
        SourceKind::Single(f) => _deserialize_single(world, *f, value),
        SourceKind::Nested(ws) => {
            let mut v = value;
            ws.deserialize(world, &mut v);
        },
    }
}

fn check_source(world: &World, kind: &SourceKind) -> (r: bool)
    ensures
        r == src_unambiguous(world@, *kind),
    decreases *kind,
{
    match kind {
        SourceKind::Resource(_) => true,
        SourceKind::Single(f) => match find_one(world, *f) {
            Result::Err(FindError::MultipleEntities) => false,
            _ => true,
        },
        SourceKind::Nested(ws) => ws.is_unambiguous(world),
    }
}

impl WorldSerializer {
    /// Whether every single-entity source in this serializer, nested ones
    /// included, matches at most one entity: the precondition of `serialize`
    /// and `deserialize`, checkable at run time.
    pub fn is_unambiguous(&self, world: &World) -> (r: bool)
        ensures
            r == unambiguous(world@, *self),
        decreases *self,
    {
        let ghost srcs = self.sources@;
        let n = self.sources.len();
        let mut ok = true;
        for idx in 0..n
            invariant
                n == self.sources.len(),
                srcs == self.sources@,
                ok == srcs_unambiguous(world@, srcs.take(idx as int)),
        {
            proof {
                lemma_srcs_unambiguous(world@, srcs.take(idx as int));
                lemma_srcs_unambiguous(world@, srcs.take(idx + 1));
            }
            let good = check_source(world, &self.sources[idx].1);
            ok = ok && good;
            proof {
                assert(forall|j: int| 0 <= j <= idx ==> srcs.take(idx + 1)[j] == srcs[j]);
                assert(forall|j: int| 0 <= j < idx ==> srcs.take(idx as int)[j] == srcs[j]);
            }
        }
        proof {
            assert(srcs.take(n as int) =~= srcs);
        }
        ok
    }

    /// Serializes every source in order into one JSON object keyed by source
    /// name.
    pub fn serialize(&self, world: &World) -> (r: Json)
        requires
            unambiguous(world@, *self),
        ensures
            r@ == ws_ser(world@, *self),
        decreases *self,
    {
        let ghost srcs = self.sources@;
        let mut entries: Vec<(String, Json)> = Vec::new();
        let n = self.sources.len();
        for idx in 0..n
            invariant
                n == self.sources.len(),
                srcs == self.sources@,
                unambiguous(world@, *self),
                obj_v(entries@) == srcs_ser(world@, srcs.take(idx as int)),
                entries@.len() == idx,
        {
            proof {
                lemma_srcs_unambiguous(world@, srcs);
            }
            let pair = &self.sources[idx];
            let value = serialize_source(world, &pair.1);
            let name = pair.0.clone();
            let ghost eold = entries@;
            entries.push((name, value));
            proof {
                lemma_obj_v(eold);
                lemma_obj_v(entries@);
                lemma_srcs_ser(world@, srcs.take(idx as int));
                lemma_srcs_ser(world@, srcs.take(idx + 1));
                assert(forall|j: int| 0 <= j <= idx ==> srcs.take(idx + 1)[j] == srcs[j]);
                assert(forall|j: int| 0 <= j < idx ==> srcs.take(idx as int)[j] == srcs[j]);
                assert forall|k: int| 0 <= k < idx + 1 implies obj_v(entries@)[k] == srcs_ser(
                    world@,
                    srcs.take(idx + 1),
                )[k] by {
                    if k < idx {
                        assert(entries@[k] == eold[k]);
                        assert(obj_v(eold)[k] == srcs_ser(world@, srcs.take(idx as int))[k]);
                    } else {
                        assert(entries@[k] == (name, value));
                    }
                }
                assert(obj_v(entries@) =~= srcs_ser(world@, srcs.take(idx + 1)));
            }
        }
        proof {
            assert(srcs.take(n as int) =~= srcs);
        }
        Json::Obj(entries)
    }

    /// Deserializes in place: each source in order consumes its own key from
    /// the document, if present, and merges the value into the live state.
    /// A document that is not an object changes nothing.
    pub fn deserialize(&self, world: &mut World, json: &mut Json)
        requires
            unambiguous(old(world)@, *self),
        ensures
            final(world)@ == ws_deser(old(world)@, *self, old(json)@).0,
            final(json)@ == ws_deser(old(world)@, *self, old(json)@).1,
        decreases *self,
    {
        let ghost w0 = old(world)@;
        match json {
            Json::Obj(entries) => {
                let ghost o0 = obj_v(entries@);
                let ghost srcs = self.sources@;
                let n = self.sources.len();
                for idx in 0..n
                    invariant
                        n == self.sources.len(),
                        srcs == self.sources@,
                        w0 == old(world)@,
                        srcs_unambiguous(w0, srcs),
                        world@ == srcs_deser(w0, srcs.take(idx as int), o0).0,
                        obj_v(entries@) == srcs_deser(w0, srcs.take(idx as int), o0).1,
                {
                    proof {
                        lemma_srcs_unambiguous(w0, srcs);
                        lemma_srcs_deser_shape(w0, srcs.take(idx as int), o0);
                        lemma_src_unamb_shape(w0, world@, srcs[idx as int].1);
                    }
                    let pair = &self.sources[idx];
                    let taken = obj_take(entries, &pair.0);
                    match taken {
                        Option::Some(v) => {
                            deserialize_source(world, &pair.1, v);
                        },
                        Option::None => {},
                    }
                    proof {
                        lemma_srcs_deser_snoc(w0, srcs, o0, idx as int);
                        assert(forall|j: int| 0 <= j <= idx ==> srcs.take(idx + 1)[j] == srcs[j]);
                    }
                }
                proof {
                    assert(srcs.take(n as int) =~= srcs);
                }
            },
            _ => {},
        }
    }
}

} // verus!
