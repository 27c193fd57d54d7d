use vstd::prelude::*;

pub mod auth;
pub mod background;
pub mod clock;
pub mod config;
pub mod features;
pub mod handlers;
pub mod helpers;
pub mod models;
pub mod repositories;
pub mod routes;
pub mod text;
pub mod watching;

verus! {
} // verus!
