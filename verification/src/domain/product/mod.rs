//! Products: the product form and its rules.
pub mod dto;
