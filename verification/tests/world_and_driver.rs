//! World-level serializer and driver behavior: singleton lookup, missing
//! resources, zero matches, nesting, and the save / load round trip.

use settings_doc::app_control::WindowSettings;
use settings_doc::debug_camera::DebugCameraState;
use settings_doc::flycam::Flycam;
use settings_doc::json::Json;
use settings_doc::serialization::Serializer;
use settings_doc::settings_file::{
    early_load_settings, load, load_settings, save, settings_file_serializer, RenderSettings,
};
use settings_doc::world::{find_one, Entity, EntityFilter, FindError, World};
use settings_doc::world_serializer::{ResourceId, SourceKind, WorldSerializer};

fn main_cam_entity(cam: Flycam) -> Entity {
    Entity { flycam: Some(cam), main_camera: true, debug_camera: false }
}

fn full_world() -> World {
    World {
        window: Some(WindowSettings::default()),
        render: Some(RenderSettings::default()),
        debug_cam: Some(DebugCameraState::default()),
        entities: vec![main_cam_entity(Flycam::default())],
    }
}

fn get_obj_value<'a>(doc: &'a Json, key: &str) -> Option<&'a Json> {
    match doc {
        Json::Obj(entries) => entries.iter().find(|e| e.0 == key).map(|e| &e.1),
        _ => None,
    }
}

#[test]
fn find_one_locates_unique_match() {
    let w = full_world();
    assert!(matches!(find_one(&w, EntityFilter::MainCamera), Ok(0)));
    assert!(matches!(find_one(&w, EntityFilter::Any), Ok(0)));
}

#[test]
fn find_one_reports_no_entities() {
    let w = World { window: None, render: None, debug_cam: None, entities: vec![] };
    assert!(matches!(
        find_one(&w, EntityFilter::MainCamera),
        Err(FindError::NoEntities)
    ));
}

#[test]
fn find_one_reports_multiple_entities() {
    let w = World {
        window: None,
        render: None,
        debug_cam: None,
        entities: vec![
            main_cam_entity(Flycam::default()),
            main_cam_entity(Flycam::default()),
        ],
    };
    assert!(matches!(
        find_one(&w, EntityFilter::MainCamera),
        Err(FindError::MultipleEntities)
    ));
}

#[test]
fn ambiguity_checker_flags_multiple_matches() {
    let ws = settings_file_serializer();
    let mut w = full_world();
    assert!(ws.is_unambiguous(&w));
    w.entities.push(main_cam_entity(Flycam::default()));
    assert!(!ws.is_unambiguous(&w));
}

#[test]
fn missing_resource_deserialize_is_a_no_op() {
    let ws = WorldSerializer {
        sources: vec![("render".to_string(), SourceKind::Resource(ResourceId::Render))],
    };
    let mut w = World { window: None, render: None, debug_cam: None, entities: vec![] };
    let inner = RenderSettings { backends: "vk".to_string(), disable_validation_in_debug: false };
    let mut doc = Json::Obj(vec![("render".to_string(), inner.serialize())]);
    ws.deserialize(&mut w, &mut doc);
    // No panic, and nothing was inserted.
    assert!(w.render.is_none());
}

#[test]
fn missing_resource_serializes_to_null() {
    let ws = WorldSerializer {
        sources: vec![("window".to_string(), SourceKind::Resource(ResourceId::Window))],
    };
    let w = World { window: None, render: None, debug_cam: None, entities: vec![] };
    let doc = ws.serialize(&w);
    assert!(matches!(get_obj_value(&doc, "window"), Some(Json::Null)));
}

#[test]
fn zero_match_entity_serializes_to_null() {
    let ws = WorldSerializer {
        sources: vec![(
            "main_cam".to_string(),
            SourceKind::Single(EntityFilter::MainCamera),
        )],
    };
    let mut w = World { window: None, render: None, debug_cam: None, entities: vec![] };
    let mut doc = ws.serialize(&w);
    assert!(matches!(get_obj_value(&doc, "main_cam"), Some(Json::Null)));
    // Deserializing against the same empty world leaves it unchanged.
    ws.deserialize(&mut w, &mut doc);
    assert!(w.entities.is_empty());
    assert!(w.window.is_none() && w.render.is_none() && w.debug_cam.is_none());
}

#[test]
fn world_deserialize_consumes_its_keys() {
    let ws = settings_file_serializer();
    let mut w = full_world();
    let mut doc = ws.serialize(&w);
    if let Json::Obj(entries) = &mut doc {
        entries.push(("unknown".to_string(), Json::Int(1)));
    }
    ws.deserialize(&mut w, &mut doc);
    // The four layout keys were consumed; the unknown key is the leftover.
    match &doc {
        Json::Obj(entries) => {
            assert_eq!(entries.len(), 1);
            assert_eq!(entries[0].0, "unknown");
        }
        _ => panic!("document should stay an object"),
    }
}

#[test]
fn nested_serializer_round_trips_two_levels() {
    let inner = || WorldSerializer {
        sources: vec![
            ("window".to_string(), SourceKind::Resource(ResourceId::Window)),
            ("render".to_string(), SourceKind::Resource(ResourceId::Render)),
        ],
    };
    let outer = WorldSerializer {
        sources: vec![("group".to_string(), SourceKind::Nested(inner()))],
    };
    let src = World {
        window: Some(WindowSettings { fullscreen: true, fullscreen_borderless: false, vsync: false }),
        render: Some(RenderSettings { backends: "gl".to_string(), disable_validation_in_debug: false }),
        debug_cam: None,
        entities: vec![],
    };
    let mut doc = outer.serialize(&src);
    // The document really is two levels deep: group.window.fullscreen.
    let group = get_obj_value(&doc, "group").expect("group key");
    let window = get_obj_value(group, "window").expect("window key");
    assert!(matches!(
        get_obj_value(window, "fullscreen"),
        Some(Json::Bool(true))
    ));
    let mut dst = World {
        window: Some(WindowSettings::default()),
        render: Some(RenderSettings::default()),
        debug_cam: None,
        entities: vec![],
    };
    outer.deserialize(&mut dst, &mut doc);
    assert_eq!(dst.window, src.window);
    assert_eq!(dst.render, src.render);
}

#[test]
fn nesting_recurses_to_arbitrary_depth() {
    let leaf = WorldSerializer {
        sources: vec![("window".to_string(), SourceKind::Resource(ResourceId::Window))],
    };
    let mid = WorldSerializer {
        sources: vec![("inner".to_string(), SourceKind::Nested(leaf))],
    };
    let top = WorldSerializer {
        sources: vec![("outer".to_string(), SourceKind::Nested(mid))],
    };
    let src = World {
        window: Some(WindowSettings { fullscreen: true, fullscreen_borderless: true, vsync: false }),
        render: None,
        debug_cam: None,
        entities: vec![],
    };
    let mut doc = top.serialize(&src);
    let outer = get_obj_value(&doc, "outer").expect("outer key");
    let inner = get_obj_value(outer, "inner").expect("inner key");
    assert!(get_obj_value(inner, "window").is_some());
    let mut dst = World {
        window: Some(WindowSettings::default()),
        render: None,
        debug_cam: None,
        entities: vec![],
    };
    top.deserialize(&mut dst, &mut doc);
    assert_eq!(dst.window, src.window);
}

#[test]
fn duplicate_source_names_round_trip_in_order() {
    // Two sources sharing a name: save writes both entries in order, and
    // each load step consumes the first remaining occurrence of its key,
    // which is the entry its own save step wrote.
    let ws = WorldSerializer {
        sources: vec![
            ("shared".to_string(), SourceKind::Resource(ResourceId::Window)),
            ("shared".to_string(), SourceKind::Resource(ResourceId::Render)),
        ],
    };
    let src = World {
        window: Some(WindowSettings { fullscreen: true, fullscreen_borderless: false, vsync: false }),
        render: Some(RenderSettings { backends: "gl".to_string(), disable_validation_in_debug: false }),
        debug_cam: None,
        entities: vec![],
    };
    let mut doc = ws.serialize(&src);
    match &doc {
        Json::Obj(entries) => {
            assert_eq!(entries.len(), 2);
            assert_eq!(entries[0].0, "shared");
            assert_eq!(entries[1].0, "shared");
        }
        _ => panic!("document should be an object"),
    }
    let mut dst = World {
        window: Some(WindowSettings::default()),
        render: Some(RenderSettings::default()),
        debug_cam: None,
        entities: vec![],
    };
    ws.deserialize(&mut dst, &mut doc);
    assert_eq!(dst.window, src.window);
    assert_eq!(dst.render, src.render);
}

#[test]
fn save_writes_sources_in_layout_order() {
    let w = full_world();
    let text = save(&w);
    let wi = text.find("\"window\"").expect("window key in text");
    let ri = text.find("\"render\"").expect("render key in text");
    let di = text.find("\"debug_cam\"").expect("debug_cam key in text");
    let mi = text.find("\"main_cam\"").expect("main_cam key in text");
    assert!(wi < ri && ri < di && di < mi);
    // Tab-indented pretty printing.
    assert!(text.contains("\t\"window\""));
}

#[test]
fn early_load_extracts_render_subset() {
    let mut src = full_world();
    src.render = Some(RenderSettings {
        backends: "vk".to_string(),
        disable_validation_in_debug: false,
    });
    let text = save(&src);
    let res = early_load_settings(Some(&text)).expect("parsable settings text");
    assert_eq!(res.render.backends, "vk");
    assert_eq!(res.render.disable_validation_in_debug, false);
}

#[test]
fn early_load_tolerates_missing_and_malformed_text() {
    assert!(early_load_settings(None).is_none());
    let garbage = "{not json".to_string();
    assert!(early_load_settings(Some(&garbage)).is_none());
}

#[test]
fn load_settings_without_document_reinserts_defaults() {
    let mut w = World {
        window: None,
        render: Some(RenderSettings {
            backends: "gl".to_string(),
            disable_validation_in_debug: false,
        }),
        debug_cam: None,
        entities: vec![],
    };
    load_settings(&mut w, None);
    assert_eq!(w.window, Some(WindowSettings::default()));
    assert_eq!(w.render, Some(RenderSettings::default()));
    assert_eq!(w.debug_cam, Some(DebugCameraState::default()));
}

#[test]
fn world_merge_is_sparse() {
    // A document holding only the render source updates render and leaves
    // every other source's live state alone.
    let ws = settings_file_serializer();
    let mut w = full_world();
    w.window = Some(WindowSettings { fullscreen: true, fullscreen_borderless: false, vsync: false });
    let window_before = w.window;
    let render = RenderSettings { backends: "dx12".to_string(), disable_validation_in_debug: false };
    let mut doc = Json::Obj(vec![("render".to_string(), render.serialize())]);
    ws.deserialize(&mut w, &mut doc);
    assert_eq!(w.window, window_before);
    assert_eq!(w.render, Some(render));
    assert_eq!(w.debug_cam, Some(DebugCameraState::default()));
    assert_eq!(w.entities[0].flycam, Some(Flycam::default()));
}

#[test]
fn end_to_end_save_and_load() {
    // Save a configured world.
    let mut cam = Flycam::default();
    cam.base_speed = 12;
    cam.speed = 500;
    let src = World {
        window: Some(WindowSettings {
            fullscreen: true,
            fullscreen_borderless: true,
            vsync: false,
        }),
        render: Some(RenderSettings {
            backends: "vk".to_string(),
            disable_validation_in_debug: true,
        }),
        debug_cam: Some(DebugCameraState { viewing_debug_cam: true }),
        entities: vec![main_cam_entity(cam)],
    };
    let text = save(&src);

    // Load into a freshly defaulted world.
    let mut dst = World {
        window: None,
        render: None,
        debug_cam: None,
        entities: vec![main_cam_entity(Flycam::default())],
    };
    load(&mut dst, Some(&text));

    let window = dst.window.expect("window resource present");
    assert_eq!(window.fullscreen, true);
    assert_eq!(window.vsync, false);
    let render = dst.render.expect("render resource present");
    assert_eq!(render.backends, "vk");
    let debug_cam = dst.debug_cam.expect("debug_cam resource present");
    assert_eq!(debug_cam.viewing_debug_cam, true);
    let loaded_cam = dst.entities[0].flycam.expect("flycam component present");
    assert_eq!(loaded_cam.base_speed, 12);
    // Fields outside the field set keep the compiled-in defaults.
    assert_eq!(loaded_cam.speed, Flycam::default().speed);
}

#[test]
fn load_of_fractional_number_keeps_prior_value() {
    // A fractional number cannot merge into an integer tuning field: that
    // field keeps its default, the rest of the document still loads.
    let text = "{\n\t\"main_cam\": {\"base_speed\": 2.5, \"mouse_sens\": 7}\n}".to_string();
    let mut w = World {
        window: None,
        render: None,
        debug_cam: None,
        entities: vec![main_cam_entity(Flycam::default())],
    };
    load(&mut w, Some(&text));
    let cam = w.entities[0].flycam.expect("flycam component present");
    assert_eq!(cam.base_speed, Flycam::default().base_speed);
    assert_eq!(cam.mouse_sens, 7);
}
