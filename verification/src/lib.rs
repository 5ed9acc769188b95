//! Verified core of an agent framework: iteration budgets, agent events,
//! tool permissions, cron schedules, the kanban task lifecycle and the
//! decisions of the agent loop and the background worker.
pub mod budget;
pub mod text;
pub mod json;
pub mod numbers;
pub mod llm;
pub mod config;
pub mod agent;
pub mod tools;
pub mod time;
pub mod schedule;
pub mod kanban;
pub mod scheduler;
pub mod lifecycle;
pub mod agent_loop;
pub mod worker;
pub mod delegate;
pub mod memory;
pub mod permission;
pub mod platforms;
pub mod plugin;
pub mod gateway;
pub mod sessions;
pub mod console;
pub mod http_api;
pub mod llm_wire;
pub mod legacy;
