//! Transaction state and recovery rules for Bottlerocket accelerator nodes.
//!
//! The lifecycle part deliberately contains no Kubernetes or NVIDIA operations. It defines the
//! transaction contract those adapters must follow so a node can resume safely after a process
//! restart or reboot. Around it stand the decisions of the programs that work on such a node:
//! which command is accepted, how the state file is replaced, when a provider is restarted, and
//! what may be done to a block device. Reading, writing and running programs is left to the
//! caller, which reports what came of each step and is told the next one.

pub mod block_device;
pub mod command;
pub mod encoding;
pub mod json;
pub mod laws;
pub mod locked_store;
pub mod model;
pub mod node_executor;
pub mod path;
pub mod process;
pub mod protocol;
pub mod provider;
pub mod resume;
pub mod run;
pub mod state;
pub mod store;
pub mod text;

pub use locked_store::{LockedJsonFileStore, LockedStoreError};
pub use node_executor::NodeExecutorError;
pub use resume::{
    execute_next_node_action, NodeAction, NodeActionExecutor, ResumeError, ResumeStatus,
};
pub use state::{
    AcceleratorProfile, LifecycleError, LifecycleState, NextAction, TransitionId,
    TransitionOutcome, TransitionPhase, TransitionResult,
};
pub use store::{JsonFileStore, StoreError};
