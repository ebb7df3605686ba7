//! Verified core of the M-Pesa Daraja local development toolkit.
pub mod text;
pub mod decimal;
pub mod tunnel_protocol;
pub mod relay;
pub mod inspect;
pub mod daraja;
pub mod error;
pub mod config;
pub mod callback_store;
pub mod doctor;
pub mod cli;
pub mod result_codes;
