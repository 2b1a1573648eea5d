pub mod actions;
pub mod card;
pub mod dashboard;
pub mod settings;
pub mod tools;
