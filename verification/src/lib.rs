pub mod component;
pub mod config;
pub mod contractor;
pub mod data_manager;
pub mod executor;
pub mod fetcher;
pub mod helper;
pub mod metric;
pub mod payload;
pub mod pending_manager;
pub mod placement;
pub mod pleiades_type;
pub mod proc_status;
pub mod request_metrics;
pub mod rm;
pub mod runtime;
pub mod runtime_metrics;
pub mod summary;
pub mod system_metrics;
pub mod text;
pub mod time;
