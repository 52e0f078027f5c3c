
pub mod error;
pub mod tokens;
pub mod container_attributes;
pub mod laws;
pub mod attribute_parser;
pub mod reflect;
pub mod debug_text;
pub mod tuple_struct;
pub mod field_attributes;
pub mod derive_data;
pub mod serialization;
pub mod registration;
pub mod from_reflect;
pub mod reconstruct;
pub mod typed;
pub mod impls;
pub mod generate;

