use vstd::prelude::*;

pub mod text;
pub mod agent;
pub mod companion;
pub mod sandbox;
pub mod exec;
pub mod persona;
pub mod protocol;
pub mod provider;
pub mod runtime;
pub mod context;
pub mod multi_agent;
pub mod patch;
pub mod codex;
pub mod skills;
pub mod mcp;
pub mod eval;
pub mod cli;
pub mod json;
pub mod openai;
pub mod request;
pub mod tools;
pub mod keyed;
pub mod turn;
pub mod transport;

verus! {
}
