//! Plays an animated GIF inside a terminal window.
//!
//! The library holds the verified part of the player: the frame model and
//! decode loop, the fixed pre-scale step, the capability-negotiation
//! decision, and the render-loop state machine. Terminal and file I/O live
//! outside the library and hand it plain values.

mod caps;
mod decode;
mod frame;
mod player;
mod protocol;
mod scale;

pub use caps::NegotiationError;
pub use caps::TermCapability;
pub use caps::cap_token;
pub use caps::caps_line;
pub use caps::negotiate;
pub use caps::spec_cap_token;
pub use caps::spec_caps_line;
pub use decode::DecodeError;
pub use decode::decode_gif;
pub use decode::frame_sized;
pub use decode::gif_clean;
pub use decode::gif_frames;
pub use frame::Frame;
pub use player::POLL_TIMEOUT_MS;
pub use player::Player;
pub use player::QUIT_KEY;
pub use player::lemma_no_draw_after_quit;
pub use player::lemma_quit_absorbs;
pub use player::run_events;
pub use player::spec_draws;
pub use player::spec_step;
pub use protocol::Renderable;
pub use protocol::build_renderables;
pub use protocol::prescaled;
pub use scale::Still;
pub use scale::ZOOM;
pub use scale::image_dims;
pub use scale::image_pixels;
