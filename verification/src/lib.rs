//! Engine selection and multi-page export planning for a drawable canvas.
//!
//! The library decides which rendering engine serves a canvas, how a
//! collection of pages is turned into buffers or files, and how the files of
//! a numbered sequence are named. Rasterising, encoding and writing are left
//! to the host: every export function returns a job that says exactly what
//! the host has to encode or write, and a second function turns the host's
//! outcome into the result that the caller sees.
#![allow(non_snake_case)]

pub mod values;
pub mod engine;
pub mod canvas;
pub mod text;
pub mod sequence;
pub mod pages;
pub mod export;
