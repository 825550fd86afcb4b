pub mod names;
pub mod esri_alias_data;
pub mod mappings;
pub mod mappings_data;
pub mod grammar;
pub mod parser;
