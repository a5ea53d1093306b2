//! Client-side logic for a remote UI-automation driver.
//!
//! The driver is a separate process that owns the real mouse, keyboard and
//! display, and answers a small JSON request/response protocol over one
//! persistent socket.  This crate holds the client's verified core: the wire
//! vocabulary and its JSON codec, the response-correlation rules, the error
//! taxonomy, the coordinate normalizer, the visual/text search loop, and the
//! multi-waypoint pointer-motion sampler.  The socket itself, and everything
//! else that touches the outside world, lives with the caller.

mod codec;
mod error;
mod geom;
mod json;
mod keys;
mod names;
mod path;
mod screen;
mod search;
mod strutil;
mod transport;
mod wire;

pub use codec::decode_input;
pub use codec::decode_output;
pub use codec::encode_input;
pub use codec::encode_output;
pub use error::Error;
pub use geom::BoundingRectangle;
pub use geom::Point;
pub use keys::Key;
pub use keys::Platform;
pub use keys::key_available;
pub use path::PathPlan;
pub use path::dist;
pub use path::isqrt;
pub use path::plan_path;
pub use path::sample_position;
pub use screen::ScaleFactor;
pub use screen::Screen;
pub use screen::normalize;
pub use search::SearchKind;
pub use search::SearchLoop;
pub use search::SearchStep;
pub use search::select_match;
pub use transport::Frame;
pub use transport::classify_frame;
pub use transport::encode_request;
pub use transport::expect_captured_screen;
pub use transport::expect_did_input;
pub use transport::expect_did_set_clipboard_text;
pub use transport::expect_did_type_text;
pub use transport::expect_found_image;
pub use transport::expect_found_text;
pub use transport::expect_got_clipboard_text;
pub use transport::expect_got_main_screen;
pub use transport::expect_got_mouse_location;
pub use transport::expect_got_screens;
pub use transport::require_host_and_port;
pub use wire::Axis;
pub use wire::Button;
pub use wire::Coordinate;
pub use wire::Direction;
pub use wire::FindImageFilter;
pub use wire::FindImageQuality;
pub use wire::ImageBuffer;
pub use wire::InputMessage;
pub use wire::OutputMessage;
pub use wire::ServerStatus;
pub use wire::Token;
pub use wire::max_level_for_size;
