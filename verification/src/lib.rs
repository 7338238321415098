pub mod builder;
pub mod mac;
pub mod pipeline;
pub mod symbols;
pub mod text;
