//! The decisions of the web pages: flash messages, search, and the create and edit steps.
pub mod category;
pub mod product;
