//! A Figma tool provider and the bridge to the Figma plugin: tool contracts,
//! call handling and the bridge's session registry, verified with Verus.

pub mod assoc;
pub mod call;
pub mod contracts;
pub mod diagnostics;
pub mod json;
pub mod laws;
pub mod legacy_tools;
pub mod protocol;
pub mod provider;
pub mod schema;
pub mod server;
pub mod session;
pub mod text;
pub mod tools;
