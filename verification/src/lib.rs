//! A small library that turns a canteen's published lunch page into a
//! fixed-layout markdown document: a registry of supported buildings, an
//! extractor that pulls three menu fields out of the page markup, and a
//! renderer for the resulting record.
use vstd::prelude::*;

pub mod lunch;
pub mod mattermost;
pub mod text;

verus! {

/// A rendered markdown document, ready to hand back to a caller.
#[derive(Debug)]
pub struct Markdown(pub String);

} // verus!
