//! Decision logic of a Kubernetes cluster browser: text processing of
//! cluster data, watch-cache maintenance, log analysis, token editing and
//! the state of the tool windows.
pub mod text;
pub mod version;
pub mod watch;
pub mod ai;
pub mod log_analysis;
pub mod logs;
pub mod codec;
pub mod jwt;
pub mod convert;
pub mod tools;
pub mod overview;
pub mod workloads;
pub mod details;
pub mod pods;
pub mod resources;
pub mod res_converter;
pub mod new_resource;
pub mod proxy;
pub mod listing;
pub mod highlight;
pub mod editor;
pub mod custom_resources;
pub mod conversation;
