//! Bootstrap and configuration-normalization layer for a .NET debugger
//! integration: resolving a usable debug-adapter binary, and translating
//! between the editor's generic debug requests and the adapter's native
//! JSON configuration dialect.

pub mod config;
pub mod json;
pub mod resolver;
pub mod text;
pub mod translate;
