use joku::query::{percent_encode, query_string};
use joku::text::{chars_of, decode_entities, find_unique, Found};

#[test]
fn unreserved_characters_stay() {
    assert_eq!(percent_encode("AZaz09-._~"), "AZaz09-._~");
    assert_eq!(percent_encode(""), "");
}

#[test]
fn reserved_characters_are_escaped_in_upper_case_hex() {
    assert_eq!(percent_encode(" "), "%20");
    assert_eq!(percent_encode("a b"), "a%20b");
    assert_eq!(percent_encode("a&b=c"), "a%26b%3Dc");
    assert_eq!(percent_encode("a+b"), "a%2Bb");
    assert_eq!(percent_encode("100%"), "100%25");
    assert_eq!(percent_encode("/?#[]@!$'()*,;:"), "%2F%3F%23%5B%5D%40%21%24%27%28%29%2A%2C%3B%3A");
    assert_eq!(percent_encode("\u{0}\u{7f}"), "%00%7F");
}

#[test]
fn other_scripts_are_escaped_byte_by_byte() {
    assert_eq!(percent_encode("é"), "%C3%A9");
    assert_eq!(percent_encode("日本"), "%E6%97%A5%E6%9C%AC");
    assert_eq!(percent_encode("😀"), "%F0%9F%98%80");
}

#[test]
fn query_string_joins_pairs() {
    assert_eq!(query_string(&vec![]), "");
    assert_eq!(query_string(&vec![("k".to_string(), "v".to_string())]), "k=v");
    assert_eq!(
        query_string(&vec![
            ("k".to_string(), "a b".to_string()),
            ("e".to_string(), "".to_string()),
            ("z".to_string(), "&".to_string()),
        ]),
        "k=a%20b&e=&z=%26"
    );
}

#[test]
fn quote_entities_are_decoded() {
    assert_eq!(decode_entities("Living Room&quot;TV"), "Living Room\"TV");
    assert_eq!(decode_entities("&quot;&quot;"), "\"\"");
    assert_eq!(decode_entities("&quot;x&quot;"), "\"x\"");
    assert_eq!(decode_entities(""), "");
}

#[test]
fn other_text_is_left_alone() {
    assert_eq!(decode_entities("&quot"), "&quot");
    assert_eq!(decode_entities("&amp;quot;"), "&amp;quot;");
    assert_eq!(decode_entities("a&amp;b &QUOT; é"), "a&amp;b &QUOT; é");
    assert_eq!(decode_entities("&&quot;"), "&\"");
}

#[test]
fn chars_are_handed_out_in_order() {
    assert_eq!(chars_of("aé😀"), vec!['a', 'é', '😀']);
    assert_eq!(chars_of(""), Vec::<char>::new());
}

#[test]
fn find_unique_counts_the_occurrences() {
    let items: Vec<String> = ["a", "b", "a", "c", "a"].iter().map(|s| s.to_string()).collect();
    assert_eq!(find_unique(&items, "b"), Found::One(1));
    assert_eq!(find_unique(&items, "c"), Found::One(3));
    assert_eq!(find_unique(&items, "a"), Found::Several(3));
    assert_eq!(find_unique(&items, "d"), Found::Nothing);
    assert_eq!(find_unique(&items, "A"), Found::Nothing);
    assert_eq!(find_unique(&vec![], "a"), Found::Nothing);
}
