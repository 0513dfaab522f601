//! Persistent user-scope storage of the `FACTORY_API_KEY` variable: the
//! line-oriented rewriting of shell start-up files, the read-back rules, the
//! registry helper scripts, and the small decisions around them.

pub mod text;
pub mod shell_file;
pub mod shell_laws;
pub mod errors;
pub mod registry;
pub mod backend;
pub mod greeting;
pub mod mcp_config;
pub mod quota;
