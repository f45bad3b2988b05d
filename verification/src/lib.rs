//! Verified decision core of a governed agent runtime.

pub mod action;
pub mod action_laws;
pub mod approval;
pub mod audit;
pub mod budget;
pub mod call_laws;
pub mod context;
pub mod digest;
pub mod digest_laws;
pub mod disposition_laws;
pub mod durable_approval;
pub mod error;
pub mod event_laws;
pub mod events;
pub mod evidence;
pub mod evidence_set;
pub mod governed;
pub mod harness_laws;
pub mod identity;
pub mod ids;
pub mod json;
pub mod knowledge;
pub mod knowledge_laws;
pub mod loop_engine;
pub mod loop_laws;
pub mod loop_state;
pub mod merge;
pub mod merge_laws;
pub mod metadata;
pub mod model;
pub mod model_call;
pub mod ocpp;
pub mod operation_laws;
pub mod operations;
pub mod persistence;
pub mod policy;
pub mod positions;
pub mod preparation;
pub mod read;
pub mod record;
pub mod recovery;
pub mod replay;
pub mod replay_laws;
pub mod resume;
pub mod retrieval;
pub mod routing;
pub mod schema;
pub mod schema_laws;
pub mod standards;
pub mod start;
pub mod status;
pub mod text;
pub mod text_laws;
pub mod tool_call;
pub mod tools;
pub mod wait_laws;
pub mod waits;
