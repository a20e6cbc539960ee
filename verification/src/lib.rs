//! Lyrics of the "99 Bottles of Beer" song.
//!
//! The library renders single verses and whole songs for a descending range
//! of bottle counts, applying the irregular wording rules (the singular
//! "bottle", the "no more" zero case, the "six-pack" novelty at six, and the
//! wrap-around to 99 after the store run).  Rendering is a pure function of
//! the count: every exported operation carries a contract that pins its
//! result down to the character.

mod digits;
mod song;
mod text;
mod verse;

pub use digits::{dec_digits, digit_char, int_rep};
pub use song::{
    lemma_song_is_joined_verses, song_text, BottleVerseFactory, CountdownSong, VerseFake,
    VerseTrait,
};
pub use text::{capitalized, lemma_capitalized_append, upper_char};
pub use verse::{
    action_text, container_text, lemma_quantity_nonempty, phrase_text, quantity_text,
    successor_of, verse_text, BottleNumber, BottleNumberOne, BottleNumberSix,
    BottleNumberVariant, BottleNumberZero, BottleVerse,
};
