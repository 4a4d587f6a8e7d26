use subd_core::lyrics::{get_lyric_chunks, LyricsError};
use subd_core::text::{
    concat2, concat3, concat4, concat5, join_from, split_on_space, split_whitespace, str_eq,
    to_decimal, to_signed_decimal,
};

fn strings(items: &[&str]) -> Vec<String> {
    items.iter().map(|s| s.to_string()).collect()
}

#[test]
fn split_whitespace_matches_std() {
    let samples = [
        "",
        " ",
        "!play abc-123",
        "  leading and trailing  ",
        "tabs\tand\nnewlines\r\nmixed",
        "one",
        "a  b   c",
        "non\u{a0}breaking\u{2003}spaces",
        "ünïcödé wörds ✓ here",
        "\u{3000}ideographic\u{3000}",
    ];
    for s in samples {
        let expected: Vec<String> = s.split_whitespace().map(String::from).collect();
        assert_eq!(split_whitespace(s), expected, "{s:?}");
    }
}

#[test]
fn split_whitespace_edge_cases() {
    assert!(split_whitespace("").is_empty());
    assert!(split_whitespace(" \t\n").is_empty());
    assert_eq!(split_whitespace("x"), strings(&["x"]));
    assert_eq!(split_whitespace(" x"), strings(&["x"]));
    assert_eq!(split_whitespace("x "), strings(&["x"]));
}

#[test]
fn split_on_space_matches_std() {
    let samples = ["", " ", "a b", " a", "a ", "a  b", "tab\tstays here", "!theme  dark  forest "];
    for s in samples {
        let expected: Vec<String> = s.split(' ').map(String::from).collect();
        assert_eq!(split_on_space(s), expected, "{s:?}");
    }
    assert_eq!(split_on_space(""), strings(&[""]));
    assert_eq!(split_on_space("a  b"), strings(&["a", "", "b"]));
}

#[test]
fn join_from_joins_the_tail() {
    let words = strings(&["!telephone", "url", "more", "memey", "please"]);
    assert_eq!(join_from(&words, 2), "more memey please");
    assert_eq!(join_from(&words, 0), "!telephone url more memey please");
    assert_eq!(join_from(&words, 4), "please");
    assert_eq!(join_from(&words, 5), "");
    assert_eq!(join_from(&words, 9), "");
    assert_eq!(join_from(&strings(&["a", "", "b"]), 0), "a  b");
}

#[test]
fn string_helpers() {
    assert!(str_eq("abc", "abc"));
    assert!(!str_eq("abc", "abd"));
    assert!(!str_eq("abc", "ab"));
    assert!(str_eq("", ""));
    assert_eq!(concat2("a", "b"), "ab");
    assert_eq!(concat3("a", "b", "c"), "abc");
    assert_eq!(concat4("a", "b", "c", "d"), "abcd");
    assert_eq!(concat5("a", "b", "c", "d", "e"), "abcde");
}

#[test]
fn decimal_numerals() {
    assert_eq!(to_decimal(0), "0");
    assert_eq!(to_decimal(7), "7");
    assert_eq!(to_decimal(10), "10");
    assert_eq!(to_decimal(1726347150), "1726347150");
    assert_eq!(to_decimal(u64::MAX), u64::MAX.to_string());
    assert_eq!(to_signed_decimal(0), "0");
    assert_eq!(to_signed_decimal(-1), "-1");
    assert_eq!(to_signed_decimal(1725750380), "1725750380");
    assert_eq!(to_signed_decimal(i64::MIN), i64::MIN.to_string());
    assert_eq!(to_signed_decimal(i64::MAX), i64::MAX.to_string());
}

#[test]
fn lyric_chunks_of_words() {
    let lyric = Some("one two  three\nfour five".to_string());
    assert_eq!(get_lyric_chunks(&lyric, 2), Ok(strings(&["one two", "three four", "five"])));
    assert_eq!(get_lyric_chunks(&lyric, 5), Ok(strings(&["one two three four five"])));
    assert_eq!(get_lyric_chunks(&lyric, 100), Ok(strings(&["one two three four five"])));
    assert_eq!(
        get_lyric_chunks(&lyric, 1),
        Ok(strings(&["one", "two", "three", "four", "five"]))
    );
    assert_eq!(get_lyric_chunks(&Some("Lyrics Hooray!".to_string()), 20), Ok(strings(&["Lyrics Hooray!"])));
}

#[test]
fn lyric_chunks_match_std_chunks() {
    let text = "a bb ccc dddd eeeee f gg hhh iiii jjjjj k";
    for size in 1..=12usize {
        let words: Vec<&str> = text.split_whitespace().collect();
        let expected: Vec<String> = words.chunks(size).map(|c| c.join(" ")).collect();
        assert_eq!(get_lyric_chunks(&Some(text.to_string()), size), Ok(expected), "{size}");
    }
}

#[test]
fn lyric_chunks_errors_and_empty() {
    assert_eq!(get_lyric_chunks(&None, 20), Err(LyricsError::NoLyrics));
    assert_eq!(get_lyric_chunks(&None, 0), Err(LyricsError::NoLyrics));
    assert_eq!(get_lyric_chunks(&Some("a b".to_string()), 0), Err(LyricsError::EmptyChunk));
    assert_eq!(get_lyric_chunks(&Some(String::new()), 3), Ok(Vec::<String>::new()));
    assert_eq!(get_lyric_chunks(&Some("  \n ".to_string()), 3), Ok(Vec::<String>::new()));
    assert_eq!(LyricsError::NoLyrics.message(), "No Lyrics to parse");
    assert_eq!(LyricsError::EmptyChunk.message(), "Chunk size must not be zero");
}
