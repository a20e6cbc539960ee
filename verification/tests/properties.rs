use bottles::{BottleVerseFactory, CountdownSong, VerseFake, VerseTrait};

#[test]
fn full_song_is_verses_joined_by_blank_lines() {
    let parts: Vec<String> = (0..=99).rev().map(|n| BottleVerseFactory.lyrics(n)).collect();
    let expected = parts.join("\n");

    assert_eq!(CountdownSong::default().song(), expected);
}

#[test]
fn full_song_edges() {
    let song = CountdownSong::default().song();

    assert!(song.starts_with("99 bottles of beer on the wall, 99 bottles of beer.\n"));
    assert!(song.ends_with("Go to the store and buy some more, 99 bottles of beer on the wall.\n"));
    assert!(!song.contains("\n\n\n"));
}

#[test]
fn verse_rendering_is_idempotent() {
    assert_eq!(BottleVerseFactory.lyrics(42), BottleVerseFactory.lyrics(42));
    assert_eq!(BottleVerseFactory.lyrics(0), BottleVerseFactory.lyrics(0));

    let composer = CountdownSong::new(BottleVerseFactory, 99, 0);
    assert_eq!(composer.verse(7), composer.verse(7));
    assert_eq!(composer.song(), composer.song());
}

#[test]
fn song_2_to_0() {
    let expected = "2 bottles of beer on the wall, 2 bottles of beer.
Take one down and pass it around, 1 bottle of beer on the wall.

1 bottle of beer on the wall, 1 bottle of beer.
Take it down and pass it around, no more bottles of beer on the wall.

No more bottles of beer on the wall, no more bottles of beer.
Go to the store and buy some more, 99 bottles of beer on the wall.\n";

    assert_eq!(CountdownSong::new(BottleVerseFactory, 2, 0).song(), expected);
}

#[test]
fn single_verse_range_has_no_separator() {
    let composer = CountdownSong::new(BottleVerseFactory, 7, 7);

    assert_eq!(composer.song(), BottleVerseFactory.lyrics(7));
}

#[test]
fn empty_range_yields_empty_string() {
    let composer = CountdownSong::new(BottleVerseFactory, 99, 0);

    assert_eq!(composer.verses(0, 1), "");
    assert_eq!(CountdownSong::new(BottleVerseFactory, 0, 1).song(), "");
}

#[test]
fn counts_above_99_follow_the_general_rule() {
    let expected = "100 bottles of beer on the wall, 100 bottles of beer.
Take one down and pass it around, 99 bottles of beer on the wall.\n";
    assert_eq!(BottleVerseFactory.lyrics(100), expected);
}

#[test]
fn negative_counts_follow_the_general_rule() {
    let expected = "-1 bottles of beer on the wall, -1 bottles of beer.
Take one down and pass it around, -2 bottles of beer on the wall.\n";
    assert_eq!(BottleVerseFactory.lyrics(-1), expected);
}

#[test]
fn fake_renders_any_count() {
    assert_eq!(VerseFake.lyrics(0), "This is verse 0.\n");
    assert_eq!(VerseFake.lyrics(-2147483648), "This is verse -2147483648.\n");
    assert_eq!(VerseFake.lyrics(2147483647), "This is verse 2147483647.\n");
}
