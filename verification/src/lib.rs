//! Verified core of a command-line clipper that appends titled pages to one
//! Notion database.
//!
//! The crate holds the data model of the remote service's JSON shapes, the
//! interactive configuration flow as a transition function, and the builders
//! for the two HTTP requests the tool issues. It performs no input or output
//! itself: a driver reads lines, sends the requests and stores the
//! configuration, and hands every outcome back as a plain value.

pub mod cli;
pub mod config;
pub mod directory;
pub mod error;
pub mod flow;
pub mod http;
pub mod json;
pub mod page;
pub mod property_map;
pub mod schema;
pub mod text;

pub use cli::{exit_status, help, plan_run, reads_configuration, RunPlan};
pub use config::NotionConfig;
pub use directory::{
    list_databases_outcome, list_databases_request, listed_databases, render_listing,
};
pub use error::{CreationError, NotionError};
pub use flow::{choose_database, select, start, step, FlowAction, FlowEvent, FlowState};
pub use http::{HttpMethod, HttpRequest, HttpResponse};
pub use page::{create_page_outcome, create_page_request};
pub use property_map::PropertyMap;
pub use schema::{
    NotionAnnotations, NotionDatabase, NotionDatabaseDate, NotionDatabaseList,
    NotionDatabaseProperty, NotionMultiSelect, NotionOption, NotionPage, NotionPageProperty,
    NotionParent, NotionRichText, NotionSelect, NotionText, NotionTitle, NotionUrl,
};
