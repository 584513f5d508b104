//! Polygon data handed to and received from the Clipper polygon-clipping
//! engine, with verified equality and verified `Debug`-style rendering.
#![allow(non_upper_case_globals)]
#![allow(non_camel_case_types)]

pub mod clipper;
pub mod text;
pub mod debug;
pub mod laws;

pub use clipper::{Path, Polygon, Polygons, Vertice};
