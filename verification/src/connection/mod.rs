mod error;
mod frame;
pub mod wire;

pub use error::ConnectionError;
pub use frame::{
    frame_bytes, frame_len, lemma_frame_round_trip, read_frame_from, write_frame_to, FrameRead,
    FrameType,
};
