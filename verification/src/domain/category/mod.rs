//! Categories: records, the two-level category tree, and the category form.
pub mod dto;
