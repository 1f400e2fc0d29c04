pub mod config;
pub mod db;
pub mod ingest;
pub mod model;
pub mod paths;
pub mod text;
pub mod tracker;
pub mod transform;
