//! Compiler backend and runtime bridge for Python plugins: the data model of a
//! plugin's exports and imports, the generator of the shim module that bridges
//! the host's typed calls to the interpreter, the plan of the link and snapshot
//! steps, and the calling convention on the interpreter's side.

pub mod analysis;
pub mod bridge;
pub mod encoder;
pub mod generate;
pub mod host;
pub mod interface;
pub mod link;
pub mod machine;
pub mod manifest;
pub mod opt;
pub mod options;
pub mod pipeline;
pub mod shim;
pub mod syntax;
pub mod text;
pub mod types;
