//! Typed records out of the pages of a sports-league website.
//!
//! The site has changed its pages many times and documents none of them. This library
//! reads ten kinds of page, each with a parser of its own in [`parser`], and gives the
//! records of [`data`], or an error of [`error`] that says which part of the page was
//! missing or malformed. It fetches nothing and keeps nothing.
//!
//! Every function states what it returns, and Verus proves that it does. The pages are
//! parsed by `scraper`, dates are matched by `time`, and the written forms of Steam
//! identifiers are read by `steamid_ng`: what those crates return is taken on trust, in
//! [`dom`], [`date`] and [`steam`], and has a name there; everything else is proved from
//! it.

pub mod collect;
pub mod data;
pub mod date;
pub mod dom;
pub mod endpoint;
pub mod error;
pub mod links;
pub mod number;
pub mod order;
pub mod parser;
pub mod steam;
pub mod text;
pub mod vocabulary;
pub mod weeks;
