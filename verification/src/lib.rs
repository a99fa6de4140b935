//! Content resolution and caching for a site that is described by a
//! configuration: which pages there are, which file holds each, which
//! template frames it, and for how long a fetched copy may be served.
//!
//! The library decides and computes; it neither reads files nor talks to
//! the network nor looks at the clock. A caller begins a resolution with
//! one of the `update_and_get_*` functions of [`page_domain`], performs the
//! fetches that the returned steps ask for, and hands each outcome to
//! [`page_domain::resume`]. A page whose parts are both there is composed
//! by [`page_domain::compose_page`].
//!
//! - [`models`]: the configuration and the cached pages.
//! - [`cache`]: the page cache and the rule of freshness.
//! - [`source`]: the requests that fetch a file, locally or remotely.
//! - [`json`]: JSON values as the template engine takes them.
//! - [`partial`]: the templates that are not handed to the engine.
//! - [`template`]: the data a page is rendered against, and the rendering.
//! - [`page_domain`]: the resolution engine, step by step.
//! - [`laws`]: what holds of every resolution, proved.

pub mod cache;
pub mod json;
pub mod laws;
pub mod models;
pub mod page_domain;
pub mod partial;
pub mod source;
pub mod template;
