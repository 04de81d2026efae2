//! A team orchestration engine: it composes independent agents into one unit, runs them
//! sequentially, concurrently or along a graph of steps, and folds their outcomes into one
//! result.

pub mod agent;
pub mod builder;
pub mod code_execution;
pub mod config;
pub mod execution;
pub mod llm_mcp;
pub mod mcp_agent;
pub mod mcp_client;
pub mod mcp_executor;
pub mod output_validator;
pub mod planning;
pub mod reasoning;
pub mod reflection;
pub mod text;
pub mod universal_integration;
