use bottles::{
    BottleNumber, BottleNumberVariant, BottleVerseFactory, CountdownSong, VerseFake, VerseTrait,
};

#[test]
fn verse() {
    let expected = "This is verse 500.\n";

    assert_eq!(CountdownSong::new(VerseFake, 99, 0).verse(500), expected);
}

#[test]
fn verses() {
    let expected = "This is verse 99.

This is verse 98.

This is verse 97.
";

    assert_eq!(CountdownSong::new(VerseFake, 99, 0).verses(99, 97), expected);
}

#[test]
fn song() {
    let expected = "This is verse 47.

This is verse 46.

This is verse 45.

This is verse 44.

This is verse 43.
";

    assert_eq!(CountdownSong::new(VerseFake, 47, 43).song(), expected);
}

#[test]
fn returns_correct_struct_type() {
    assert!(matches!(
        BottleNumber::of(0),
        BottleNumberVariant::Zero(_)
    ));
    assert!(matches!(BottleNumber::of(1), BottleNumberVariant::One(_)));
    assert!(matches!(BottleNumber::of(6), BottleNumberVariant::Six(_)));
    assert!(matches!(
        BottleNumber::of(99),
        BottleNumberVariant::General(_)
    ));
}

#[test]
fn verse_general_rule_upper_bound() {
    let expected = "99 bottles of beer on the wall, 99 bottles of beer.
Take one down and pass it around, 98 bottles of beer on the wall.\n";
    assert_eq!(BottleVerseFactory.lyrics(99), expected);
}

#[test]
fn verse_general_rule_lower_bound() {
    let expected = "3 bottles of beer on the wall, 3 bottles of beer.
Take one down and pass it around, 2 bottles of beer on the wall.\n";
    assert_eq!(BottleVerseFactory.lyrics(3), expected);
}

#[test]
fn verse_7() {
    let expected = "7 bottles of beer on the wall, 7 bottles of beer.
Take one down and pass it around, 1 six-pack of beer on the wall.\n";
    assert_eq!(BottleVerseFactory.lyrics(7), expected);
}

#[test]
fn verse_6() {
    let expected = "1 six-pack of beer on the wall, 1 six-pack of beer.
Take one down and pass it around, 5 bottles of beer on the wall.\n";
    assert_eq!(BottleVerseFactory.lyrics(6), expected);
}

#[test]
fn verse_2() {
    let expected = "2 bottles of beer on the wall, 2 bottles of beer.
Take one down and pass it around, 1 bottle of beer on the wall.\n";
    assert_eq!(BottleVerseFactory.lyrics(2), expected);
}

#[test]
fn verse_1() {
    let expected = "1 bottle of beer on the wall, 1 bottle of beer.
Take it down and pass it around, no more bottles of beer on the wall.\n";
    assert_eq!(BottleVerseFactory.lyrics(1), expected);
}

#[test]
fn verse_0() {
    let expected = "No more bottles of beer on the wall, no more bottles of beer.
Go to the store and buy some more, 99 bottles of beer on the wall.\n";
    assert_eq!(BottleVerseFactory.lyrics(0), expected);
}
