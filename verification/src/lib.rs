//! Orchestration logic for turning a video file into an animated GIF by
//! driving two external command-line tools: a frame extractor and a frame
//! encoder. The decision logic — which tool to run with which arguments,
//! how frames are enumerated, and how failures abort the run — lives here,
//! verified; the process spawning and file probing live in the surrounding
//! application.

use vstd::prelude::*;

mod args;
mod digits;
mod session;

pub use session::Action;
pub use session::ConvertError;
pub use session::Event;
pub use session::Phase;
pub use session::Session;
pub use session::Tool;
pub use session::lemma_frames_contiguous;
pub use session::lemma_terminal_phases;

pub use args::encode_args_spec;
pub use args::encoding_args;
pub use args::extract_args_spec;
pub use args::extraction_args;
pub use args::filter_arg;
pub use args::filter_spec;
pub use args::frame_file_path;
pub use args::frame_path_spec;
pub use args::frame_template;
pub use args::template_spec;
pub use digits::all_digits;
pub use digits::char_bytes;
pub use digits::dec_digits;
pub use digits::dec_val;
pub use digits::digit_char;
pub use digits::digit_val;
pub use digits::is_digit;
pub use digits::lemma_decimal_round_trip;
pub use digits::parse_fps;
pub use digits::parse_u32;
pub use digits::u32_to_dec;

verus! {

} // verus!
