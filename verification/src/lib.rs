//! Verified core of a bilingual (Arabic and English) catalogue of categories and products:
//! the form rules, the category tree, the error mapping and the page decisions of its web front.
pub mod text;
pub mod error;
pub mod domain;
pub mod web;
