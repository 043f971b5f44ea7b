pub mod agent;
pub mod agent_loop;
pub mod args;
pub mod catalog;
pub mod changes;
pub mod chunking;
pub mod commands;
pub mod conversation;
pub mod danger;
pub mod diff;
pub mod dispatch;
pub mod error;
pub mod events;
pub mod git;
pub mod ids;
pub mod names;
pub mod permissions;
pub mod process_manager;
pub mod template;
pub mod text;
pub mod tool_args;
pub mod tools;
pub mod usage;
