//! Motherboard identity: three optional byte streams (vendor, name and
//! version) packed into one fixed-capacity value, with accessors for each part
//! and a one-line human-readable label.

mod board;
mod escape;
mod laws;

pub use board::{fits, label, opt_view, packs, payload, BoardId, TooLarge, CAPACITY};
pub use escape::{escape_byte, escaped, hex_digit};
pub use laws::{
    lemma_name_capacity, lemma_offsets_ordered, lemma_parts_determined, lemma_presence,
    lemma_round_trip,
};
