//! Discovery, placement and scheduling logic for acquiring the files of a
//! Minecraft client: version documents, assets, libraries, natives and JVM
//! runtimes.

pub mod archive;
pub mod artifact;
pub mod fetch;
pub mod layout;
pub mod os;
pub mod rules;
pub mod schema;
pub mod source;
pub mod task;
pub mod template;
pub mod text;
