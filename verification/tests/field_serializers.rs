//! Field-level serializer behavior: round trips, sparse merges, unknown and
//! malformed keys, and the document object operations they rest on.

use settings_doc::app_control::WindowSettings;
use settings_doc::debug_camera::DebugCameraState;
use settings_doc::flycam::Flycam;
use settings_doc::json::{obj_get, obj_take, Json};
use settings_doc::serialization::Serializer;
use settings_doc::settings_file::RenderSettings;

fn obj(entries: Vec<(&str, Json)>) -> Json {
    Json::Obj(entries.into_iter().map(|(k, v)| (k.to_string(), v)).collect())
}

#[test]
fn window_settings_round_trip() {
    let o = WindowSettings { fullscreen: true, fullscreen_borderless: false, vsync: false };
    let restored = WindowSettings::deserialize_new(o.serialize());
    assert_eq!(restored, o);
}

#[test]
fn render_settings_round_trip() {
    let o = RenderSettings { backends: "vk".to_string(), disable_validation_in_debug: false };
    let restored = RenderSettings::deserialize_new(o.serialize());
    assert_eq!(restored, o);
}

#[test]
fn debug_camera_round_trip() {
    let o = DebugCameraState { viewing_debug_cam: true };
    let restored = DebugCameraState::deserialize_new(o.serialize());
    assert_eq!(restored, o);
}

#[test]
fn flycam_round_trip_restores_declared_fields() {
    let o = Flycam {
        move_planar: false,
        mouse_sens: 9,
        default_vfov: 55,
        base_speed: 12,
        speedup_factor: 3,
        speed: 777,
        vfov_target: 888,
    };
    let restored = Flycam::deserialize_new(o.serialize());
    assert_eq!(restored.move_planar, false);
    assert_eq!(restored.mouse_sens, 9);
    assert_eq!(restored.default_vfov, 55);
    assert_eq!(restored.base_speed, 12);
    assert_eq!(restored.speedup_factor, 3);
    // Runtime fields are outside the field set: they stay at the defaults of
    // the freshly-created object, not the serialized one.
    let d = Flycam::default();
    assert_eq!(restored.speed, d.speed);
    assert_eq!(restored.vfov_target, d.vfov_target);
}

#[test]
fn sparse_merge_keeps_absent_fields() {
    let mut o = Flycam::default();
    o.mouse_sens = 1;
    o.base_speed = 2;
    o.deserialize(obj(vec![("mouse_sens", Json::Int(9))]));
    assert_eq!(o.mouse_sens, 9);
    assert_eq!(o.base_speed, 2);
}

#[test]
fn sparse_merge_on_window_settings() {
    let mut o = WindowSettings { fullscreen: true, fullscreen_borderless: true, vsync: false };
    o.deserialize(obj(vec![("vsync", Json::Bool(true))]));
    assert_eq!(o.vsync, true);
    assert_eq!(o.fullscreen, true);
    assert_eq!(o.fullscreen_borderless, true);
}

#[test]
fn unknown_keys_are_ignored() {
    let mut o = WindowSettings::default();
    let before = o;
    o.deserialize(obj(vec![
        ("color_scheme", Json::Str("dark".to_string())),
        ("gamma", Json::Int(22)),
    ]));
    assert_eq!(o, before);
}

#[test]
fn unknown_key_does_not_disturb_declared_fields() {
    let mut o = WindowSettings::default();
    o.deserialize(obj(vec![
        ("extra", Json::Int(1)),
        ("fullscreen", Json::Bool(true)),
    ]));
    assert_eq!(o.fullscreen, true);
}

#[test]
fn malformed_field_keeps_prior_value() {
    let mut o = WindowSettings { fullscreen: false, fullscreen_borderless: true, vsync: true };
    // A string where a bool is expected: that field keeps its value, the
    // sibling field still loads.
    o.deserialize(obj(vec![
        ("fullscreen", Json::Str("yes".to_string())),
        ("vsync", Json::Bool(false)),
    ]));
    assert_eq!(o.fullscreen, false);
    assert_eq!(o.vsync, false);
}

#[test]
fn malformed_numeric_field_keeps_prior_value() {
    let mut o = Flycam::default();
    let before = o.base_speed;
    o.deserialize(obj(vec![("base_speed", Json::Str("fast".to_string()))]));
    assert_eq!(o.base_speed, before);
}

#[test]
fn non_object_document_is_a_no_op() {
    let mut o = WindowSettings { fullscreen: true, fullscreen_borderless: false, vsync: false };
    let before = o;
    o.deserialize(Json::Int(7));
    assert_eq!(o, before);
    o.deserialize(Json::Null);
    assert_eq!(o, before);
}

#[test]
fn primitive_codec_round_trip() {
    assert!(matches!(true.serialize(), Json::Bool(true)));
    assert!(matches!(42i64.serialize(), Json::Int(42)));
    let s = "hello".to_string();
    assert!(matches!(s.serialize(), Json::Str(ref t) if t == "hello"));
    assert_eq!(bool::deserialize_new(Json::Bool(true)), true);
    assert_eq!(i64::deserialize_new(Json::Int(-5)), -5);
    assert_eq!(String::deserialize_new(Json::Str("x".to_string())), "x");
}

#[test]
fn primitive_codec_wrong_shape_keeps_value() {
    let mut b = true;
    b.deserialize(Json::Int(0));
    assert_eq!(b, true);
    let mut n: i64 = 3;
    n.deserialize(Json::Str("7".to_string()));
    assert_eq!(n, 3);
}

#[test]
fn empty_document_changes_nothing() {
    let mut o = WindowSettings { fullscreen: true, fullscreen_borderless: false, vsync: false };
    let before = o;
    o.deserialize(Json::Obj(vec![]));
    assert_eq!(o, before);
}

#[test]
fn extreme_integers_round_trip() {
    let mut o = Flycam::default();
    o.base_speed = i64::MAX;
    o.mouse_sens = i64::MIN;
    let restored = Flycam::deserialize_new(o.serialize());
    assert_eq!(restored.base_speed, i64::MAX);
    assert_eq!(restored.mouse_sens, i64::MIN);
}

#[test]
fn obj_take_consumes_first_occurrence() {
    let mut entries = vec![
        ("a".to_string(), Json::Int(1)),
        ("b".to_string(), Json::Int(2)),
        ("a".to_string(), Json::Int(3)),
    ];
    let key = "a".to_string();
    assert!(matches!(obj_take(&mut entries, &key), Some(Json::Int(1))));
    assert_eq!(entries.len(), 2);
    assert!(matches!(obj_take(&mut entries, &key), Some(Json::Int(3))));
    assert!(obj_take(&mut entries, &key).is_none());
    let other = "b".to_string();
    assert!(matches!(obj_take(&mut entries, &other), Some(Json::Int(2))));
    assert!(entries.is_empty());
}

#[test]
fn obj_get_reads_without_consuming() {
    let entries = vec![("k".to_string(), Json::Bool(true))];
    let key = "k".to_string();
    assert!(matches!(obj_get(&entries, &key), Some(Json::Bool(true))));
    assert_eq!(entries.len(), 1);
    let missing = "m".to_string();
    assert!(obj_get(&entries, &missing).is_none());
}

#[test]
fn deserialize_consumes_matched_keys() {
    // The field-level deserializer removes the keys it reads, so a caller
    // can detect leftover unknown keys afterwards.
    let mut o = WindowSettings::default();
    let mut entries = vec![
        ("fullscreen".to_string(), Json::Bool(true)),
        ("leftover".to_string(), Json::Int(1)),
    ];
    let key = "fullscreen".to_string();
    if let Some(v) = obj_take(&mut entries, &key) {
        o.fullscreen.deserialize(v);
    }
    assert_eq!(o.fullscreen, true);
    assert_eq!(entries.len(), 1);
    assert_eq!(entries[0].0, "leftover");
}
