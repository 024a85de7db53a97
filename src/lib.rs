pub mod text;
pub mod mapping;
pub mod table;
pub mod matrix;
pub mod layers;
pub mod config;
pub mod runtime_layer;
pub mod polyfills;
pub mod defaults;
pub mod compose;
pub mod laws;
