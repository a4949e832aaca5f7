//! Theme derives for terminal user interfaces, as a verified library.
//!
//! A derive reads a struct definition and writes Rust code for it. Here the
//! struct arrives as plain data ([`syntax::DeriveInput`]) and the code leaves
//! as text; every rule in between has a contract.

pub mod builder;
pub mod color;
pub mod colors;
pub mod deserialize;
pub mod error;
pub mod helpers;
pub mod meta;
pub mod style;
pub mod style_values;
pub mod subtheme;
pub mod syntax;
pub mod theme;
pub mod words;
