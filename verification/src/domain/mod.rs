//! The catalogue's records, forms and form rules.
pub mod category;
pub mod product;
