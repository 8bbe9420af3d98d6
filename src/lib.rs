//! Genkan turns a declarative profile and link description into one
//! self-contained HTML page: it resolves every asset reference into an
//! embeddable form, recolors vector icons, renders a QR code for the page
//! address and resolves the typography of each text role.

pub mod config;
pub mod text;
pub mod svg;
pub mod media;
pub mod asset;
pub mod generator;
