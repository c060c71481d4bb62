pub mod settings;
pub mod states;
pub mod note;
pub mod partiture;
pub mod layout;
pub mod app;
