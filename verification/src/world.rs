//! The world collaborator: singleton resources and entities, with typed
//! lookup of the unique entity matching a component shape and filter.

use vstd::prelude::*;
use crate::app_control::WindowSettings;
use crate::debug_camera::DebugCameraState;
use crate::flycam::Flycam;
use crate::settings_file::{RenderSettings, RenderSettingsV};

verus! {

/// An entity: its optional flycam component and its marker components.
#[derive(Debug, Clone, Copy, PartialEq, Eq)]
pub struct Entity {
    pub flycam: Option<Flycam>,
    pub main_camera: bool,
    pub debug_camera: bool,
}

impl View for Entity {
    type V = Entity;

    open spec fn view(&self) -> Entity {
        *self
    }
}

/// Mathematical model of the world.
pub struct WorldV {
    pub window: Option<WindowSettings>,
    pub render: Option<RenderSettingsV>,
    pub debug_cam: Option<DebugCameraState>,
    pub entities: Seq<Entity>,
}

/// The world: each resource exists as at most one instance, and entities are
/// held in spawn order.
pub struct World {
    pub window: Option<WindowSettings>,
    pub render: Option<RenderSettings>,
    pub debug_cam: Option<DebugCameraState>,
    pub entities: Vec<Entity>,
}

impl View for World {
    type V = WorldV;

    open spec fn view(&self) -> WorldV {
        WorldV {
            window: self.window,
            render: match self.render {
                Option::Some(r) => Option::Some(r@),
                Option::None => Option::None,
            },
            debug_cam: self.debug_cam,
            entities: self.entities@,
        }
    }
}

/// The optional filter of a single-entity source.
#[derive(Debug, Clone, Copy, PartialEq, Eq)]
pub enum EntityFilter {
    Any,
    MainCamera,
    DebugCamera,
}

/// Failure of a unique-entity lookup.
#[derive(Debug, Clone, Copy, PartialEq, Eq)]
pub enum FindError {
    NoEntities,
    MultipleEntities,
}

/// Whether an entity carries the flycam component shape and passes `f`.
pub open spec fn entity_matches(e: Entity, f: EntityFilter) -> bool {
    e.flycam is Some && match f {
        EntityFilter::Any => true,
        EntityFilter::MainCamera => e.main_camera,
        EntityFilter::DebugCamera => e.debug_camera,
    }
}

/// How many entities match.
pub open spec fn match_count(es: Seq<Entity>, f: EntityFilter) -> nat
    decreases es.len(),
{
    if es.len() == 0 {
        0
    } else {
        match_count(es.drop_last(), f) + if entity_matches(es.last(), f) {
            1nat
        } else {
            0nat
        }
    }
}

/// Index of the first matching entity, or -1 when none matches.
pub open spec fn first_match_idx(es: Seq<Entity>, f: EntityFilter) -> int
    decreases es.len(),
{
    if es.len() == 0 {
        -1
    } else if entity_matches(es[0], f) {
        0
    } else {
        let rest = first_match_idx(es.drop_first(), f);
        if rest == -1 {
            -1
        } else {
            rest + 1
        }
    }
}

/// `first_match_idx` finds the first matching entity, if any.
pub proof fn lemma_first_match_idx(es: Seq<Entity>, f: EntityFilter)
    ensures
        first_match_idx(es, f) == -1 ==> forall|j: int|
            0 <= j < es.len() ==> !entity_matches(es[j], f),
        first_match_idx(es, f) != -1 ==> 0 <= first_match_idx(es, f) < es.len()
            && entity_matches(es[first_match_idx(es, f)], f) && forall|j: int|
            0 <= j < first_match_idx(es, f) ==> !entity_matches(es[j], f),
    decreases es.len(),
{
    if es.len() > 0 && !entity_matches(es[0], f) {
        lemma_first_match_idx(es.drop_first(), f);
        if first_match_idx(es, f) == -1 {
            assert forall|j: int| 0 <= j < es.len() implies !entity_matches(es[j], f) by {
                if j > 0 {
                    assert(es.drop_first()[j - 1] == es[j]);
                }
            }
        } else {
            let k = first_match_idx(es, f);
            assert(es.drop_first()[k - 1] == es[k]);
            assert forall|j: int| 0 <= j < k implies !entity_matches(es[j], f) by {
                if j > 0 {
                    assert(es.drop_first()[j - 1] == es[j]);
                }
            }
        }
    }
}

/// `first_match_idx` returns the first matching index.
pub proof fn lemma_first_match_idx_is(es: Seq<Entity>, f: EntityFilter, i: int)
    requires
        0 <= i < es.len(),
        entity_matches(es[i], f),
        forall|j: int| 0 <= j < i ==> !entity_matches(es[j], f),
    ensures
        first_match_idx(es, f) == i,
    decreases i,
{
    if i > 0 {
        assert(forall|j: int|
            0 <= j < es.drop_first().len() ==> es.drop_first()[j] == es[j + 1]);
        lemma_first_match_idx_is(es.drop_first(), f, i - 1);
    }
}

/// A sequence without matches counts zero matches, and conversely.
pub proof fn lemma_match_count_zero(es: Seq<Entity>, f: EntityFilter)
    ensures
        (match_count(es, f) == 0) <==> (forall|j: int|
            0 <= j < es.len() ==> !entity_matches(es[j], f)),
    decreases es.len(),
{
    if es.len() > 0 {
        lemma_match_count_zero(es.drop_last(), f);
        assert(forall|j: int| 0 <= j < es.len() - 1 ==> es.drop_last()[j] == es[j]);
        assert(es.last() == es[es.len() - 1]);
    }
}

/// Whether an entity carries the flycam shape and passes the filter.
pub fn entity_matches_exec(e: &Entity, f: EntityFilter) -> (r: bool)
    ensures
        r == entity_matches(*e, f),
{
    e.flycam.is_some() && match f {
        EntityFilter::Any => true,
        EntityFilter::MainCamera => e.main_camera,
        EntityFilter::DebugCamera => e.debug_camera,
    }
}

/// Locates the unique entity carrying the flycam shape and passing `f`:
/// the index of the single match, or on which side uniqueness failed.
pub fn find_one(world: &World, f: EntityFilter) -> (r: Result<usize, FindError>)
    ensures
        match r {
            Result::Ok(i) => match_count(world@.entities, f) == 1 && i
                == first_match_idx(world@.entities, f) && 0 <= i < world@.entities.len()
                && entity_matches(world@.entities[i as int], f),
            Result::Err(e) => match e {
                FindError::NoEntities => match_count(world@.entities, f) == 0,
                FindError::MultipleEntities => match_count(world@.entities, f) >= 2,
            },
        },
{
    let ghost es = world@.entities;
    let n = world.entities.len();
    let mut c: usize = 0;
    let mut first: usize = 0;
    for i in 0..n
        invariant
            n == world.entities.len(),
            es == world@.entities,
            c == match_count(es.take(i as int), f),
            c <= i,
            c == 0 ==> forall|j: int| 0 <= j < i ==> !entity_matches(es[j], f),
            c > 0 ==> first < i && entity_matches(es[first as int], f) && forall|j: int|
                0 <= j < first ==> !entity_matches(es[j], f),
    {
        proof {
            assert(es.take(i + 1).drop_last() =~= es.take(i as int));
            assert(es.take(i + 1).last() == es[i as int]);
        }
        if entity_matches_exec(&world.entities[i], f) {
            if c == 0 {
                first = i;
            }
            c = c + 1;
        }
    }
    proof {
        assert(es.take(n as int) =~= es);
    }
    if c == 0 {
        proof {
            lemma_match_count_zero(es, f);
        }
        Result::Err(FindError::NoEntities)
    } else if c == 1 {
        proof {
            lemma_first_match_idx_is(es, f, first as int);
        }
        Result::Ok(first)
    } else {
        Result::Err(FindError::MultipleEntities)
    }
}

} // verus!
