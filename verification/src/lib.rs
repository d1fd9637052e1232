//! Headless page rendering: the decisions behind a C interface that turns HTML,
//! markdown or a URL into an RGBA image.
//!
//! The library holds what the interface decides and computes: option defaults,
//! argument checks and their error texts, the markdown document, pixel sizes,
//! the settling of sub-resources, request bodies and PNG files. Sockets, files,
//! clocks, threads and the layout engine stay with the caller, who performs the
//! actions that the library asks for and hands the replies back as plain values.

pub mod arguments;
pub mod binary;
pub mod context;
pub mod encode;
pub mod entry;
pub mod image;
pub mod laws;
pub mod location;
pub mod markdown;
pub mod net;
pub mod options;
pub mod pending;
pub mod render;
pub mod scaling;
pub mod status;
pub mod stylesheet;
pub mod text;
pub mod transfer;

pub use crate::context::blitz_context_new;
pub use crate::encode::{blitz_image_encode_png, blitz_image_write_png};
pub use crate::entry::{
    blitz_markdown_to_html, blitz_render_html, blitz_render_markdown, blitz_render_url,
    blitz_version,
};
pub use crate::image::{blitz_buffer_free, blitz_image_free, BlitzBuffer, BlitzImage};
pub use crate::markdown::blitz_default_markdown_stylesheet;
pub use crate::options::{
    blitz_render_options_default, BlitzRenderOptions, BLITZ_COLOR_SCHEME_DARK,
    BLITZ_COLOR_SCHEME_LIGHT,
};
pub use crate::status::{
    blitz_last_error_message, BLITZ_ERR_INVALID_ARG, BLITZ_ERR_INVALID_URL, BLITZ_ERR_INVALID_UTF8,
    BLITZ_ERR_IO, BLITZ_ERR_NETWORK, BLITZ_ERR_PANIC, BLITZ_ERR_RENDER, BLITZ_OK,
};
