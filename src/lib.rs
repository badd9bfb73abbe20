//! A scroll engine for a live, scrolling view of a cyclic step matrix.
//!
//! The matrix is a multi-track sequencer pattern of binary cells. The engine
//! advances a wrapping sub-step offset from elapsed time and tempo, detects
//! step boundaries, and keeps per-track rolling windows that show the pattern
//! as seen from several vantage points.

mod clock;
mod engine;
mod laws;
mod matrix;
mod messages;
mod outline;
mod track;
mod windows;

pub use clock::{
    advance_offset, step_size, MICROS_PER_SECOND, SCROLL_GAIN, TEMPO_SCALE, UNITS_PER_PIXEL,
};
pub use engine::{
    Command, Model, ModelView, Vantage, FUTURE_DIVISOR, INITIAL_TEMPO, MAX_STEPS, MIN_STEPS,
};
pub use laws::{
    lemma_grow_prepends_zero, lemma_matrix_update_idempotent, lemma_one_step_per_frame,
    lemma_preview_reads_ahead, lemma_resize_keeps_window_lengths, lemma_window_stays_in_bounds,
    lemma_zero_tempo_freezes,
};
pub use matrix::{fit_track_count, zeros, CyclicMatrix, MatrixError, MAX_TRACKS};
pub use messages::{
    kind_of, LinesMessage, MatrixMessage, MatrixRequestMessage, MessageKind, Messages,
    ServerMessage, WheelMessage,
};
pub use outline::{trace, trace_from, Stroke};
pub use track::{drop_oldest, prepend_zero, read_cell, refresh_window, relay_window, step_back};
