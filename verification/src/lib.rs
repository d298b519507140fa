//! Verified transformation logic for the UprimerPay payment connector:
//! status mappings, webhook classification and signature checks, request
//! construction and response interpretation.

pub mod status;
pub mod text;
pub mod errors;
pub mod auth;
pub mod signature;
pub mod webhook;
pub mod connector;
pub mod flows;
pub mod specifications;
pub mod router_data;
pub mod error_response;
pub mod card;
pub mod requests;
pub mod responses;
pub mod laws;
