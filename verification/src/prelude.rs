//! The items that most callers need, in one place.

pub use crate::agents::build_agent_graph;
pub use crate::chat::{process_message, process_message_with, AgentResponse};
pub use crate::agents::{
    AdminSetupAgent, AgentGraph, AgentNode, AgentRouter, BestPracticesAgent, DocsHelperAgent,
    TroubleshootAgent, UsageAssistantAgent,
};
pub use crate::graph::{
    BuildError, CompiledGraph, GraphBuilder, Node, NodeError, NodeErrorKind, Router, Signal, END,
};
pub use crate::json::Json;
pub use crate::runner::{GraphRunner, Phase, RunError, RunReport, RunnerConfig};
pub use crate::state::{AgentType, Message, MessageRole, PendingToolCall, WxoContext, WxorcaState};
pub use crate::tools::create_tool_registry;
pub use crate::tools::{Tool, ToolError, ToolRegistry, ToolResult, WxoTool};
