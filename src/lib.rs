//! Localized message resolution and text formatting for a backup utility.
//!
//! - `catalog`: the Fluent catalog, request ids (`message` or
//!   `message.attribute`), argument sets, and resolution that never fails.
//! - `text`: the whitespace reflow applied to every formatted message.
//! - `size`: byte counts in binary units.
//! - `domain`: the values that the rest of the application hands in.
//! - `translator`: one function per piece of user-facing text.
//! - `catalog_text`: the compiled-in templates.
pub mod catalog;
pub mod catalog_text;
pub mod domain;
pub mod size;
pub mod text;
pub mod translator;
