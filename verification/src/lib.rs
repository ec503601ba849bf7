pub mod text;
pub mod models;
pub mod escape;
pub mod ids;
pub mod clock;
pub mod jobs;
pub mod config;
pub mod design;
pub mod paths;
pub mod mock;
pub mod float_text;
pub mod engine_args;
pub mod sd_cpp;
pub mod text_model;
pub mod automation;
pub mod json;
pub mod parsing;
pub mod sd_server;
pub mod image_server;
