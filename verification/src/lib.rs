//! The logic of an animated, interactive wallpaper engine: projects and their
//! layers, what is drawn of them and when, the server that renders them, the
//! client that shows them on X11, and the editor.
//!
//! Numbers with a fraction are held as the bits of their floating-point form.
//! Files, sockets and the graphics card belong to whoever uses the library:
//! its functions take what was read and say what is to be written, sent or
//! drawn.

use vstd::prelude::*;

pub mod adapter;
pub mod autostart;
pub mod bmp;
pub mod bytes;
pub mod canvas;
pub mod cursor;
pub mod draft;
pub mod draw_laws;
pub mod draw_plan;
pub mod editor;
pub mod editor_app;
pub mod effect_laws;
pub mod gif;
pub mod json;
pub mod library;
pub mod load;
pub mod monitors_config;
pub mod open;
pub mod paint;
pub mod paths;
pub mod pictures;
pub mod pixfmt;
pub mod player;
pub mod preview;
pub mod project_format;
pub mod project_laws;
pub mod push;
pub mod query;
pub mod randr;
pub mod render_loop;
pub mod render_server;
pub mod save;
pub mod save_laws;
pub mod scene;
pub mod selection;
pub mod server_laws;
pub mod server_state;
pub mod session;
pub mod shader_params;
pub mod shader_preview;
pub mod shaders_library;
pub mod text;
pub mod text_source;
pub mod trust_store;
pub mod uniforms;
pub mod version;
pub mod window;

verus! {

} // verus!
