//! Core of a terminal-emulator embedding: an in-memory grid of display
//! cells (character, colors, style flags) with bounds-checked access and
//! resize-with-clipping, together with the size bookkeeping and error
//! taxonomy of a pseudo-terminal session.

mod error;
mod pty;
mod term;
mod text;

pub use error::Error;
pub use pty::{spawn_error, validate_size, PtySize, SpawnStep, CHANNEL_CAPACITY, READ_BUFFER_SIZE};
pub use term::{
    add_class, is_whitespace_char, lemma_clear_idempotent, lemma_flat_index, lemma_index_split,
    lemma_resize_overlap, lemma_set_get_round_trip, Cell, Color, Grid, GridView, Style,
};
pub use text::{dec_seq, digit_char, hex_byte_seq};
