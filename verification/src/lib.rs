//! Renderer logic for the Waveshare 2.8 inch panel: configuration, Volumio
//! state, touch decoding, layout, hit regions and the boot status screen.

pub mod text;
pub mod geom;
pub mod config;
pub mod state;
pub mod http;
pub mod touch;
pub mod ui;
pub mod net;
pub mod face;
pub mod status;
pub mod surface;
pub mod controller;
pub mod session;
pub mod art;
pub mod input;
pub mod fbdev;
pub mod panels;
pub mod canvas;
pub mod body;
