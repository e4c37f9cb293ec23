pub mod locales;
pub mod message;
pub mod model;
pub mod proxies;
pub mod state;
pub mod subscription;
pub mod text;
pub mod update;
pub mod update_ui;
pub mod update_profile;
pub mod update_core;
pub mod platform;
pub mod laws;
pub mod view_model;
pub mod describe;
pub mod profile_yaml;
