pub mod text;
pub mod debug_config;
pub mod settings;
pub mod paths;
pub mod locator;
pub mod language_servers;
