//! Client-side model of the IDE: module names, the suggestion database kept in sync with the
//! language server, and the controllers that sit between remote services and views.

pub mod qualified_name;
pub mod suggestion_database;
pub mod module_controller;
pub mod text_controller;
