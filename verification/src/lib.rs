//! A small tool for the static assets of a web page, and the components of
//! its demo page.
//!
//! - [`manifest`] reads the list of assets: one entry per line.
//! - [`layout`] says where the raw files and the compressed artifacts lie.
//! - [`fetch`] plans and steers the pass that downloads the remote assets.
//! - [`artifact`] plans and steers the pass that compresses every asset;
//!   [`gzip`] does the compression.
//! - [`run`] holds what the two passes ask of their surroundings: they do
//!   no input or output of their own.
//! - [`upload`] keeps the uploaded file out of the parts of a multipart
//!   request.
//! - [`markup`], [`button`], [`input`], [`web`] and [`page`] render the
//!   components and the demo page.

pub mod artifact;
pub mod button;
pub mod fetch;
pub mod gzip;
pub mod input;
pub mod layout;
pub mod manifest;
pub mod markup;
pub mod page;
pub mod run;
pub mod text;
pub mod upload;
pub mod web;
