//! Bounded page-engine rules with machine-checked contracts.

pub mod identity;
pub mod limits;
pub mod frame;
pub mod scene;
pub mod failure;
pub mod bytes;
pub mod text;
pub mod web;
pub mod style_document;
pub mod commit;
mod collections;
pub mod script;
pub mod command;
pub mod event;
pub mod executor;
pub mod style_fetch;
pub mod mime;
pub mod legacy_mime;
pub mod headers;
pub mod style_response;
pub mod csp_source;
pub mod csp_policy;
pub mod policy_hosts;
pub mod style_policy;
pub mod content_type;
pub mod style_plan;
pub mod style_transport;
pub mod style_body;
pub mod style_transaction;
pub mod style_owner;
pub mod document_policy;
pub mod pipeline_error;
pub mod dynamic;
pub mod document_fetch;
pub mod scene_charge;
pub mod page_engine;
pub mod snapshot_render;
pub mod pipeline_executor;
pub mod accounting;
pub mod engine;
pub mod control;
pub mod admission;
pub mod publication;
pub mod document_work;
pub mod receiver;
pub mod worker;
pub mod invariants;
pub mod messages;
pub mod describe;
pub mod byte_laws;
pub mod capture_laws;
pub mod command_laws;
pub mod engine_laws;
pub mod executor_laws;
pub mod fetch_laws;
pub mod lenient_laws;
pub mod media_laws;
pub mod message_laws;
pub mod parsing_laws;
pub mod payload_laws;
pub mod policy_laws;
pub mod publication_laws;
pub mod refusal_laws;
pub mod report_laws;
pub mod response_laws;
pub mod source_laws;
pub mod stylesheet_laws;
pub mod text_laws;
