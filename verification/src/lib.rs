//! Per-guild configuration of automated welcome and farewell messaging,
//! with partial-merge transactional updates over a five-table layered
//! record, and a pure template renderer that substitutes `{token}`
//! placeholders from a runtime context snapshot.

pub mod api;
pub mod cdn;
pub mod context;
pub mod decimal;
pub mod embed;
pub mod lifecycle;
pub mod poll;
pub mod reaction_roles;
pub mod render;
pub mod slash_commands;
pub mod store;
pub mod text;
pub mod welcome;
