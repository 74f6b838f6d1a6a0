pub mod money;
pub mod models;
pub mod errors;
pub mod validation;
pub mod dtos;
pub mod pin_hasher;
pub mod qr;
pub mod db;
pub mod flows;
pub mod config;
