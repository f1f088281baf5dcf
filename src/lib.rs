//! The discrete core of a small path tracer: quantised colours, the
//! emitting material, nearest-hit selection, the bounded shading loop,
//! render settings and the plain-text image encoding.
mod color;
mod material;
mod ppm;
mod scene;
mod settings;
mod trace;

pub use color::{Color3, Face, CHANNEL_MAX};
pub use material::LightSource;
pub use ppm::{decimal, header_text, pixel_text, ppm_header, push_decimal};
pub use scene::{all_missed, is_nearest, nearest_hit};
pub use settings::{ConfigError, RenderSettings};
pub use trace::{Bounce, Trace};
