//! A declarative settings persistence layer: a heterogeneous set of
//! in-memory objects — free-standing settings resources and a singleton
//! entity's component — maps to and from a single JSON document with
//! partial-update semantics. Missing keys preserve existing values, unknown
//! keys are ignored, absent singletons serialize as null, and sub-serializers
//! nest under named keys to arbitrary depth.

pub mod json;
pub mod json_text;
pub mod serialization;
pub mod app_control;
pub mod debug_camera;
pub mod flycam;
pub mod settings_file;
pub mod world;
pub mod world_serializer;
