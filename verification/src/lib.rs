//! Request building, localisation, theming, configuration and update
//! logic of the Agnes Studio desktop client.

pub mod text;
pub mod updater;
pub mod i18n;
pub mod theme;
pub mod ratelimits;
pub mod config;
pub mod api;
pub mod studio;
pub mod media;
