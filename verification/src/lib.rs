use vstd::prelude::*;

pub mod auth;
pub mod clerk;
pub mod config;
pub mod convex;
pub mod decimal;
pub mod ghostscript;
pub mod handlers;
pub mod json;
pub mod middleware;
pub mod mupdf;
pub mod plans;
pub mod quota;
pub mod rate_limit;
pub mod state;
pub mod stripe_api;
pub mod text;
pub mod upload;
