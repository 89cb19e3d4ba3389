//! exact: the decision logic of a judge that builds user snippets for
//! Cortex-M boards, dispatches them to runner agents and ranks the
//! results, with each decision stated as a contract and proved by Verus.

pub mod outside;
pub mod proto;
pub mod text;
pub mod agent;
pub mod records;
pub mod access;
pub mod problems;
pub mod judge;
pub mod events;
pub mod leaderboard;
pub mod b64;
pub mod tokens;
pub mod hub;
pub mod dispatch;
pub mod config;
pub mod auth;
pub mod codegen;
