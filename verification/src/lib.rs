//! Guides for IBM WatsonX Orchestrate: a small graph engine, the
//! conversation state that flows through it, the tools that nodes can call,
//! and one agent for each kind of guidance.

pub mod agents;
pub mod chat;
pub mod db;
pub mod graph;
pub mod json;
pub mod prelude;
pub mod runner;
pub mod state;
pub mod text;
pub mod tools;

pub use agents::{
    AdminSetupAgent, BestPracticesAgent, DocsHelperAgent, TroubleshootAgent, UsageAssistantAgent,
};
pub use state::{AgentType, Message, WxoContext, WxorcaState};
