//! u-blox protocol framing and deframing.

mod checksum;
mod deframer;
mod error;
mod frame;
mod laws;

pub use checksum::{add8, checksum_of, ck_fold, ck_step, Checksum};
pub use deframer::{deframe, first_frame, out_matches, Deframer, DeframerModel, PushOut, MAX_LEN};
pub use error::FrameError;
pub use frame::{body_bytes, frame, frame_bytes, Frame, SYNC_1, SYNC_2};
pub use laws::{
    all_pending, lemma_checksum_rejected, lemma_frame_outcomes, lemma_resync_after_noise,
    lemma_round_trip, lemma_run_append, lemma_terminal_resets, no_sync_pair, run_outs, run_state,
};

use vstd::prelude::*;

verus! {

/// Buffer type used for accumulated message payloads.
pub type FrameVec = Vec<u8>;

} // verus!
