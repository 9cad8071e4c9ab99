//! Server-side logic of an LNURL-pay endpoint backed by a phoenixd node:
//! username authorization, the pay-request metadata document, callback
//! validation, the request that mints an invoice, and credential resolution.

pub mod text;
pub mod phoenixd_client;
pub mod cli_arguments;
pub mod lnurl;
