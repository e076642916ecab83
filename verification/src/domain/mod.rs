//! Settings data: boards, pad sets, styles, parameters and resources.
pub mod integration;
pub mod data;
pub mod resources;
