//! The wording rules for a single verse.
//!
//! Each bottle count is classed into one of four variants — zero, one, six,
//! or the general case — and each variant supplies the quantity word, the
//! container noun, the action clause, and the count that follows when
//! counting down.

use vstd::prelude::*;
use vstd::string::StringExecFns;
use crate::digits::{dec_digits, int_rep, i32_to_decimal, lemma_dec_digits_shape};
use crate::text::{capitalize, capitalized, lemma_capitalized_append, upper_char};

verus! {

/// The textual rendering of a bottle count: "no more" at zero, "1" for the
/// six-pack, and the decimal rendering otherwise.
pub open spec fn quantity_text(n: int) -> Seq<char> {
    if n == 0 {
        "no more"@
    } else if n == 6 {
        "1"@
    } else {
        int_rep(n)
    }
}

/// The unit noun that goes with a bottle count.
pub open spec fn container_text(n: int) -> Seq<char> {
    if n == 1 {
        "bottle"@
    } else if n == 6 {
        "six-pack"@
    } else {
        "bottles"@
    }
}

/// The imperative clause of a verse.
pub open spec fn action_text(n: int) -> Seq<char> {
    if n == 0 {
        "Go to the store and buy some more"@
    } else if n == 1 {
        "Take it down and pass it around"@
    } else {
        "Take one down and pass it around"@
    }
}

/// The count that follows when counting down: one fewer, wrapping around to
/// 99 after the store run at zero.
pub open spec fn successor_of(n: int) -> int {
    if n == 0 {
        99
    } else {
        n - 1
    }
}

/// The quantity and container of a count, joined by a space: the phrase that
/// fills each slot of the verse template.
pub open spec fn phrase_text(n: int) -> Seq<char> {
    quantity_text(n) + " "@ + container_text(n)
}

/// The full two-line verse for a bottle count, trailing newline included.
pub open spec fn verse_text(n: int) -> Seq<char> {
    capitalized(quantity_text(n)) + " "@ + container_text(n) + " of beer on the wall, "@
        + phrase_text(n) + " of beer."@ + "\n"@ + action_text(n) + ", "@
        + phrase_text(successor_of(n)) + " of beer on the wall."@ + "\n"@
}

/// The quantity word of a count is never empty.
pub proof fn lemma_quantity_nonempty(n: int)
    ensures
        quantity_text(n).len() > 0,
{
    reveal_strlit("no more");
    reveal_strlit("1");
    if n != 0 && n != 6 {
        if n < 0 {
            lemma_dec_digits_shape(-n);
        } else {
            lemma_dec_digits_shape(n);
        }
    }
}

/// For a count in the general range — 2 through 99, the six-pack aside —
/// the verse opens with "{n} bottles of beer on the wall, {n} bottles of
/// beer." and closes with the phrase for the count one below, followed by
/// " of beer on the wall." and the trailing newline.
pub proof fn lemma_general_verse_shape(n: int)
    requires
        2 <= n <= 99,
        n != 6,
    ensures
        ({
            let opening = int_rep(n) + " bottles of beer on the wall, "@ + int_rep(n)
                + " bottles of beer."@;
            verse_text(n).len() >= opening.len() && verse_text(n).take(opening.len() as int)
                == opening
        }),
        ({
            let closing = phrase_text(n - 1) + " of beer on the wall.\n"@;
            verse_text(n).len() >= closing.len() && verse_text(n).skip(
                verse_text(n).len() - closing.len(),
            ) == closing
        }),
{
    lemma_dec_digits_shape(n);
    assert(upper_char(dec_digits(n)[0]) == dec_digits(n)[0]);
    assert(capitalized(dec_digits(n)) =~= dec_digits(n));
    reveal_strlit(" ");
    reveal_strlit("bottles");
    reveal_strlit(" of beer on the wall, ");
    reveal_strlit(" bottles of beer on the wall, ");
    reveal_strlit(" of beer.");
    reveal_strlit(" bottles of beer.");
    reveal_strlit("\n");
    reveal_strlit(" of beer on the wall.");
    reveal_strlit(" of beer on the wall.\n");
    assert(" "@ + "bottles"@ + " of beer on the wall, "@ =~= " bottles of beer on the wall, "@);
    assert(" "@ + "bottles"@ + " of beer."@ =~= " bottles of beer."@);
    assert(" of beer on the wall."@ + "\n"@ =~= " of beer on the wall.\n"@);
    let opening = int_rep(n) + " bottles of beer on the wall, "@ + int_rep(n)
        + " bottles of beer."@;
    let closing = phrase_text(n - 1) + " of beer on the wall.\n"@;
    let middle = "\n"@ + action_text(n) + ", "@;
    assert(verse_text(n) =~= opening + middle + closing);
    assert((opening + middle + closing).take(opening.len() as int) =~= opening);
    assert((opening + middle + closing).skip(
        (opening + middle + closing).len() - closing.len(),
    ) =~= closing);
}

/// Rendering is pure: any two verse texts for the same count are identical.
pub proof fn lemma_verse_deterministic(n: int, first: Seq<char>, second: Seq<char>)
    requires
        first == verse_text(n),
        second == verse_text(n),
    ensures
        first == second,
{
}

/// The general case: a count rendered as its decimal digits.
pub struct BottleNumber {
    pub number: i32,
}

/// The count zero: "no more" bottles, and a trip to the store.
pub struct BottleNumberZero {
    pub bottle_number: BottleNumber,
}

/// The count one: a single bottle, taken down rather than passed around.
pub struct BottleNumberOne {
    pub bottle_number: BottleNumber,
}

/// The count six: a whimsical single six-pack.
pub struct BottleNumberSix {
    pub bottle_number: BottleNumber,
}

/// A bottle count classed under the variant that renders it: the tagged
/// union over the four wording rules.
pub enum BottleNumberVariant {
    Zero(BottleNumberZero),
    One(BottleNumberOne),
    Six(BottleNumberSix),
    General(BottleNumber),
}

impl BottleNumber {
    pub fn new(number: i32) -> (r: Self)
        ensures
            r.number == number,
    {
        BottleNumber { number }
    }

    /// Classes a count under the variant that renders it.
    pub fn of(number: i32) -> (r: BottleNumberVariant)
        ensures
            r.wf(),
            r.num() == number as int,
    {
        match number {
            0 => BottleNumberVariant::Zero(BottleNumberZero::new(number)),
            1 => BottleNumberVariant::One(BottleNumberOne::new(number)),
            6 => BottleNumberVariant::Six(BottleNumberSix::new(number)),
            _ => BottleNumberVariant::General(BottleNumber::new(number)),
        }
    }

    pub fn quantity(&self) -> (r: String)
        ensures
            r@ == int_rep(self.number as int),
    {
        i32_to_decimal(self.number)
    }

    pub fn container(&self) -> (r: String)
        ensures
            r@ == "bottles"@,
    {
        "bottles".to_owned()
    }

    pub fn pronoun(&self) -> (r: String)
        ensures
            r@ == "one"@,
    {
        "one".to_owned()
    }

    pub fn action(&self) -> (r: String)
        ensures
            r@ == "Take one down and pass it around"@,
    {
        let mut r = "Take ".to_owned();
        let pronoun = self.pronoun();
        r.append(pronoun.as_str());
        r.append(" down and pass it around");
        proof {
            reveal_strlit("Take ");
            reveal_strlit("one");
            reveal_strlit(" down and pass it around");
            reveal_strlit("Take one down and pass it around");
            assert(r@ =~= "Take one down and pass it around"@);
        }
        r
    }

    pub fn successor(&self) -> (r: BottleNumberVariant)
        requires
            self.number > i32::MIN,
        ensures
            r.wf(),
            r.num() == self.number - 1,
    {
        BottleNumber::of(self.number - 1)
    }
}

impl BottleNumberZero {
    pub fn new(number: i32) -> (r: Self)
        ensures
            r.bottle_number.number == number,
    {
        BottleNumberZero {
            // Composed from the general case to re-use its wording where the
            // zero case has nothing special to say.
            bottle_number: BottleNumber::new(number),
        }
    }

    pub fn quantity(&self) -> (r: String)
        ensures
            r@ == "no more"@,
    {
        "no more".to_owned()
    }

    pub fn action(&self) -> (r: String)
        ensures
            r@ == "Go to the store and buy some more"@,
    {
        "Go to the store and buy some more".to_owned()
    }

    pub fn container(&self) -> (r: String)
        ensures
            r@ == "bottles"@,
    {
        self.bottle_number.container()
    }

    pub fn successor(&self) -> (r: BottleNumberVariant)
        ensures
            r.wf(),
            r.num() == 99,
    {
        BottleNumber::of(99)
    }
}

impl BottleNumberOne {
    pub fn new(number: i32) -> (r: Self)
        ensures
            r.bottle_number.number == number,
    {
        BottleNumberOne {
            bottle_number: BottleNumber::new(number),
        }
    }

    pub fn quantity(&self) -> (r: String)
        ensures
            r@ == int_rep(self.bottle_number.number as int),
    {
        self.bottle_number.quantity()
    }

    pub fn action(&self) -> (r: String)
        ensures
            r@ == "Take it down and pass it around"@,
    {
        let mut r = "Take ".to_owned();
        let pronoun = self.pronoun();
        r.append(pronoun.as_str());
        r.append(" down and pass it around");
        proof {
            reveal_strlit("Take ");
            reveal_strlit("it");
            reveal_strlit(" down and pass it around");
            reveal_strlit("Take it down and pass it around");
            assert(r@ =~= "Take it down and pass it around"@);
        }
        r
    }

    pub fn pronoun(&self) -> (r: String)
        ensures
            r@ == "it"@,
    {
        "it".to_owned()
    }

    pub fn container(&self) -> (r: String)
        ensures
            r@ == "bottle"@,
    {
        "bottle".to_owned()
    }

    pub fn successor(&self) -> (r: BottleNumberVariant)
        requires
            self.bottle_number.number > i32::MIN,
        ensures
            r.wf(),
            r.num() == self.bottle_number.number - 1,
    {
        self.bottle_number.successor()
    }
}

impl BottleNumberSix {
    pub fn new(number: i32) -> (r: Self)
        ensures
            r.bottle_number.number == number,
    {
        BottleNumberSix {
            bottle_number: BottleNumber::new(number),
        }
    }

    pub fn quantity(&self) -> (r: String)
        ensures
            r@ == "1"@,
    {
        "1".to_owned()
    }

    pub fn action(&self) -> (r: String)
        ensures
            r@ == "Take one down and pass it around"@,
    {
        self.bottle_number.action()
    }

    pub fn container(&self) -> (r: String)
        ensures
            r@ == "six-pack"@,
    {
        "six-pack".to_owned()
    }

    pub fn successor(&self) -> (r: BottleNumberVariant)
        requires
            self.bottle_number.number > i32::MIN,
        ensures
            r.wf(),
            r.num() == self.bottle_number.number - 1,
    {
        self.bottle_number.successor()
    }
}

impl BottleNumberVariant {
    /// The variant matches its stored count: each irregular count sits under
    /// its own variant, every other count under the general one.
    pub open spec fn wf(&self) -> bool {
        match self {
            BottleNumberVariant::Zero(z) => z.bottle_number.number == 0,
            BottleNumberVariant::One(o) => o.bottle_number.number == 1,
            BottleNumberVariant::Six(s) => s.bottle_number.number == 6,
            BottleNumberVariant::General(b) => b.number != 0 && b.number != 1 && b.number != 6,
        }
    }

    /// The bottle count this variant renders.
    pub open spec fn num(&self) -> int {
        match self {
            BottleNumberVariant::Zero(z) => z.bottle_number.number as int,
            BottleNumberVariant::One(o) => o.bottle_number.number as int,
            BottleNumberVariant::Six(s) => s.bottle_number.number as int,
            BottleNumberVariant::General(b) => b.number as int,
        }
    }

    pub fn quantity(&self) -> (r: String)
        requires
            self.wf(),
        ensures
            r@ == quantity_text(self.num()),
    {
        match self {
            BottleNumberVariant::Zero(z) => z.quantity(),
            BottleNumberVariant::One(o) => o.quantity(),
            BottleNumberVariant::Six(s) => s.quantity(),
            BottleNumberVariant::General(b) => b.quantity(),
        }
    }

    pub fn action(&self) -> (r: String)
        requires
            self.wf(),
        ensures
            r@ == action_text(self.num()),
    {
        match self {
            BottleNumberVariant::Zero(z) => z.action(),
            BottleNumberVariant::One(o) => o.action(),
            BottleNumberVariant::Six(s) => s.action(),
            BottleNumberVariant::General(b) => b.action(),
        }
    }

    pub fn container(&self) -> (r: String)
        requires
            self.wf(),
        ensures
            r@ == container_text(self.num()),
    {
        match self {
            BottleNumberVariant::Zero(z) => z.container(),
            BottleNumberVariant::One(o) => o.container(),
            BottleNumberVariant::Six(s) => s.container(),
            BottleNumberVariant::General(b) => b.container(),
        }
    }

    pub fn successor(&self) -> (r: BottleNumberVariant)
        requires
            self.wf(),
            self.num() > i32::MIN,
        ensures
            r.wf(),
            r.num() == successor_of(self.num()),
    {
        match self {
            BottleNumberVariant::Zero(z) => z.successor(),
            BottleNumberVariant::One(o) => o.successor(),
            BottleNumberVariant::Six(s) => s.successor(),
            BottleNumberVariant::General(b) => b.successor(),
        }
    }

    /// The quantity and container joined by a space, as the verse template
    /// interpolates them.
    pub fn phrase(&self) -> (r: String)
        requires
            self.wf(),
        ensures
            r@ == phrase_text(self.num()),
    {
        let mut r = self.quantity();
        r.append(" ");
        let container = self.container();
        r.append(container.as_str());
        r
    }
}

/// A verse under construction: a classed bottle count, rendered on demand.
pub struct BottleVerse {
    pub bottle_number: BottleNumberVariant,
}

impl BottleVerse {
    pub fn new(number: BottleNumberVariant) -> (r: Self)
        ensures
            r.bottle_number == number,
    {
        BottleVerse {
            bottle_number: number,
        }
    }

    /// The two-line verse for this count.
    pub fn lyrics(&self) -> (r: String)
        requires
            self.bottle_number.wf(),
            self.bottle_number.num() > i32::MIN,
        ensures
            r@ == verse_text(self.bottle_number.num()),
    {
        let ghost n = self.bottle_number.num();
        let phrase = self.bottle_number.phrase();
        let action = self.bottle_number.action();
        let next = self.bottle_number.successor();
        let next_phrase = next.phrase();
        let mut r = capitalize(phrase.as_str());
        r.append(" of beer on the wall, ");
        r.append(phrase.as_str());
        r.append(" of beer.");
        r.append("\n");
        r.append(action.as_str());
        r.append(", ");
        r.append(next_phrase.as_str());
        r.append(" of beer on the wall.");
        r.append("\n");
        proof {
            lemma_quantity_nonempty(n);
            lemma_capitalized_append(quantity_text(n) + " "@, container_text(n));
            lemma_capitalized_append(quantity_text(n), " "@);
            assert(capitalized(phrase_text(n)) =~= capitalized(quantity_text(n)) + " "@
                + container_text(n));
            assert(r@ =~= verse_text(n));
        }
        r
    }
}

} // verus!
