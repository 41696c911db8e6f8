//! Runtime core of a JavaScript/TypeScript scripting layer for Godot:
//! module path resolution, TypeScript stripping, signal bookkeeping,
//! per-frame scheduling and the small decision rules used by node proxies.

mod text;
pub mod paths;
pub mod path_laws;
pub mod console;
pub mod typescript;
pub mod signals;
pub mod runtime;
pub mod proxy;
pub mod errors;
pub mod color;
pub mod engine;
