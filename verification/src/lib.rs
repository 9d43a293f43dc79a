//! The verified core of a disc golf club's website: sessions and password
//! checks, the access guards of the admin area, the routes, paging through
//! news posts, page content versions, file paths, and the markdown filter.
use vstd::prelude::*;

pub mod auth;
pub mod config;
pub mod decimal;
pub mod files;
pub mod hash_text;
pub mod markdown;
pub mod metrix;
pub mod pages;
pub mod pagination;
pub mod password;
pub mod routes;

verus! {
}
