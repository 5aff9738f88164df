//! Verified core of a module-graph toolkit: module boundaries and the
//! transitions that attach them, the client reference manifest, the loader
//! tree builder, worker kinds, inlined byte modules, and the planning logic of
//! the `ValueToString` derive.

pub mod base_loader_tree;
pub mod boundary;
pub mod boundary_types;
pub mod client_references;
pub mod inlined_bytes_module;
pub mod ordered_map;
pub mod text;
pub mod transitions;
pub mod value_to_string;
pub mod worker_type;
