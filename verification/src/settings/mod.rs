//! Settings: storage mapping, validation and the settings repository.
pub mod persistence;
pub mod validation;
pub mod settings;
pub mod icons;
pub mod main_file;
