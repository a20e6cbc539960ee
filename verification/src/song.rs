//! Composition of verses into a song.
//!
//! Walking a count range downward and joining the verses is kept apart from
//! the wording of a single verse: the composer takes any rendering strategy
//! through the narrow [`VerseTrait`] interface.

use vstd::prelude::*;
use vstd::string::StringExecFns;
use crate::digits::{int_rep, i32_to_decimal};
use crate::verse::{verse_text, BottleNumber, BottleVerse};

verus! {

/// A verse-rendering strategy: one operation from a count to its verse text.
///
/// The composer walks the count range and defers every wording decision to
/// this interface, so alternate lyric sets can be substituted without
/// touching the composition logic.
pub trait VerseTrait {
    /// The counts this strategy renders.
    spec fn accepts(&self, number: int) -> bool;

    /// The text this strategy produces for a count.
    spec fn spec_lyrics(&self, number: int) -> Seq<char>;

    /// The verse for the given count.
    fn lyrics(&self, number: i32) -> (r: String)
        requires
            self.accepts(number as int),
        ensures
            r@ == self.spec_lyrics(number as int),
    ;
}

/// The song over the counts from `upper` down to `lower`, inclusive: the
/// verses in descending order, each consecutive pair separated by a single
/// blank line, and the empty string when the range is empty.
pub open spec fn song_text<V: VerseTrait>(v: V, upper: int, lower: int) -> Seq<char>
    decreases upper - lower,
{
    if upper < lower {
        Seq::empty()
    } else if upper == lower {
        v.spec_lyrics(lower)
    } else {
        v.spec_lyrics(upper) + "\n"@ + song_text(v, upper - 1, lower)
    }
}

/// Lowering the bottom of a non-empty range by one appends a separator and
/// the new bottom verse.
proof fn lemma_song_text_extend<V: VerseTrait>(v: V, upper: int, m: int)
    requires
        m <= upper,
    ensures
        song_text(v, upper, m - 1) == song_text(v, upper, m) + "\n"@ + v.spec_lyrics(m - 1),
    decreases upper - m,
{
    if upper > m {
        lemma_song_text_extend(v, upper - 1, m);
        assert(song_text(v, upper, m - 1) =~= song_text(v, upper, m) + "\n"@ + v.spec_lyrics(
            m - 1,
        ));
    } else {
        assert(song_text(v, upper, m - 1) == v.spec_lyrics(m) + "\n"@ + song_text(v, m - 1, m - 1));
        assert(song_text(v, m - 1, m - 1) == v.spec_lyrics(m - 1));
        assert(song_text(v, upper, m - 1) =~= song_text(v, upper, m) + "\n"@ + v.spec_lyrics(
            m - 1,
        ));
    }
}

/// A song over a range of one count is that verse alone, with no separator;
/// over a wider range it is the top verse, one blank-line separator, and the
/// song over the rest.  Together with the base case this pins the song down
/// to the joined verses in strictly descending order.
pub proof fn lemma_song_is_joined_verses<V: VerseTrait>(v: V, upper: int, lower: int)
    requires
        lower <= upper,
    ensures
        upper == lower ==> song_text(v, upper, lower) == v.spec_lyrics(upper),
        lower < upper ==> song_text(v, upper, lower) == v.spec_lyrics(upper) + "\n"@
            + song_text(v, upper - 1, lower),
{
}

/// A song: a verse-rendering strategy and the inclusive count range it walks
/// downward.
pub struct CountdownSong<V: VerseTrait> {
    pub verse_template: V,
    pub max: i32,
    pub min: i32,
}

impl<V: VerseTrait> CountdownSong<V> {
    pub fn new(verse_template: V, max: i32, min: i32) -> (r: Self)
        ensures
            r.verse_template == verse_template,
            r.max == max,
            r.min == min,
    {
        CountdownSong {
            verse_template,
            max,
            min,
        }
    }

    /// The whole song over this composer's own range.
    pub fn song(&self) -> (r: String)
        requires
            forall|n: int| self.min <= n <= self.max ==> self.verse_template.accepts(n),
        ensures
            r@ == song_text(self.verse_template, self.max as int, self.min as int),
    {
        self.verses(self.max, self.min)
    }

    /// The verses from `upper` down to `lower` inclusive, joined by blank
    /// lines; the empty string when `upper < lower`.
    pub fn verses(&self, upper: i32, lower: i32) -> (r: String)
        requires
            forall|n: int| lower <= n <= upper ==> self.verse_template.accepts(n),
        ensures
            r@ == song_text(self.verse_template, upper as int, lower as int),
    {
        if upper < lower {
            return String::new();
        }
        let mut r = self.verse(upper);
        let mut num: i32 = upper;
        while num > lower
            invariant
                lower <= num <= upper,
                forall|n: int| lower <= n <= upper ==> self.verse_template.accepts(n),
                r@ == song_text(self.verse_template, upper as int, num as int),
            decreases num - lower,
        {
            num = num - 1;
            r.append("\n");
            let verse = self.verse(num);
            r.append(verse.as_str());
            proof {
                lemma_song_text_extend(self.verse_template, upper as int, num as int + 1);
            }
        }
        r
    }

    /// One verse, rendered by this composer's strategy.
    pub fn verse(&self, number: i32) -> (r: String)
        requires
            self.verse_template.accepts(number as int),
        ensures
            r@ == self.verse_template.spec_lyrics(number as int),
    {
        self.verse_template.lyrics(number)
    }
}

/// The bottle-wording strategy: renders the real verse for every count that
/// the machine integer range can count down from.
pub struct BottleVerseFactory;

impl VerseTrait for BottleVerseFactory {
    open spec fn accepts(&self, number: int) -> bool {
        number > i32::MIN
    }

    open spec fn spec_lyrics(&self, number: int) -> Seq<char> {
        verse_text(number)
    }

    fn lyrics(&self, number: i32) -> (r: String) {
        BottleVerse::new(BottleNumber::of(number)).lyrics()
    }
}

/// A substitute strategy that renders "This is verse N." for every count:
/// it exercises the composer apart from the bottle wording.
pub struct VerseFake;

impl VerseTrait for VerseFake {
    open spec fn accepts(&self, number: int) -> bool {
        true
    }

    open spec fn spec_lyrics(&self, number: int) -> Seq<char> {
        "This is verse "@ + int_rep(number) + ".\n"@
    }

    fn lyrics(&self, number: i32) -> (r: String) {
        let mut r = "This is verse ".to_owned();
        let digits = i32_to_decimal(number);
        r.append(digits.as_str());
        r.append(".\n");
        r
    }
}

impl Default for CountdownSong<BottleVerseFactory> {
    /// The canonical song: every verse from 99 down to "no more".
    fn default() -> (r: Self)
        ensures
            r.verse_template == (BottleVerseFactory),
            r.max == 99,
            r.min == 0,
    {
        Self::new(BottleVerseFactory, 99, 0)
    }
}

} // verus!
