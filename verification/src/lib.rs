//! Task execution with provenance: grounding material is resolved into
//! content-addressed atoms, rendered into a prompt, and the engine's answer is
//! accepted only if every citation points at an atom that was supplied.

pub mod citation;
pub mod context;
pub mod engine;
pub mod engine_llamacpp;
pub mod execute;
pub mod failure;
pub mod fur_atom;
pub mod fur_bridge;
pub mod fur_logger;
pub mod interactive;
pub mod task;
pub mod text;
pub mod trace;
pub mod validate;
