//! Domain services shared by the tools.
pub mod doc_generator;
pub mod error_handler;
pub mod file_operations;
pub mod file_type;
pub mod json_builder;
pub mod json_value;
pub mod permissions;
pub mod provider;
pub mod registry;
pub mod tool_metadata;
pub mod validation;
pub mod xml_builder;
