//! In-memory schema graph: models, composite types and their fields, with
//! non-owning back-references from every field to its declaring container.

pub mod construction;
pub mod data_model;
pub mod parent_container;
pub mod mysql;
pub mod string_utils;
