pub mod invoke;
pub mod providers;
pub mod registry;
pub mod types;
