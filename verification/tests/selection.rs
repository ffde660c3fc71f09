use primer::selection::{longest, welches_wort_ist_groesser};

#[test]
fn longest_picks_the_longer() {
    let string1 = String::from("long string is long");
    let string2 = String::from("xyz");
    assert_eq!(longest(string1.as_str(), string2.as_str()), "long string is long");
    assert_eq!(longest(string2.as_str(), string1.as_str()), "long string is long");
}

#[test]
fn longest_returns_the_first_on_equal_length() {
    let x = String::from("abc");
    let y = String::from("xyz");
    let chosen = longest(x.as_str(), y.as_str());
    assert_eq!(chosen, "abc");
    assert!(std::ptr::eq(chosen, x.as_str()));
    let chosen = longest(y.as_str(), x.as_str());
    assert_eq!(chosen, "xyz");
    assert!(std::ptr::eq(chosen, y.as_str()));
}

#[test]
fn longest_borrows_an_argument() {
    let x = String::from("short");
    let y = String::from("much longer");
    assert!(std::ptr::eq(longest(x.as_str(), y.as_str()), y.as_str()));
    assert!(std::ptr::eq(longest(y.as_str(), x.as_str()), y.as_str()));
}

#[test]
fn longest_measures_bytes() {
    // Two characters in four bytes against three characters in three bytes.
    assert_eq!(longest("abc", "\u{e9}\u{e9}"), "\u{e9}\u{e9}");
    // One character in two bytes ties with two characters in two bytes.
    assert_eq!(longest("\u{e9}", "ab"), "\u{e9}");
    assert_eq!(longest("ab", "\u{e9}"), "ab");
}

#[test]
fn longest_with_empty_strings() {
    assert_eq!(longest("", ""), "");
    assert_eq!(longest("", "a"), "a");
    assert_eq!(longest("a", ""), "a");
}

#[test]
fn groesser_picks_the_later_word() {
    assert_eq!(welches_wort_ist_groesser("zzzzz", "zaun\u{f6}"), "zzzzz");
    assert_eq!(welches_wort_ist_groesser("zaun\u{f6}", "zzzzz"), "zzzzz");
    assert_eq!(welches_wort_ist_groesser("apple", "banana"), "banana");
}

#[test]
fn groesser_prefers_the_extension_of_a_prefix() {
    assert_eq!(welches_wort_ist_groesser("ab", "abc"), "abc");
    assert_eq!(welches_wort_ist_groesser("abc", "ab"), "abc");
    assert_eq!(welches_wort_ist_groesser("", "a"), "a");
}

#[test]
fn groesser_orders_by_code_point() {
    // Upper case comes before lower case, and every ASCII letter before U+00F6.
    assert_eq!(welches_wort_ist_groesser("Zebra", "apple"), "apple");
    assert_eq!(welches_wort_ist_groesser("z", "\u{f6}"), "\u{f6}");
    assert_eq!(welches_wort_ist_groesser("\u{10000}", "\u{ffff}"), "\u{10000}");
}

#[test]
fn groesser_returns_the_first_of_equal_words() {
    let wort1 = String::from("gleich");
    let wort2 = String::from("gleich");
    let chosen = welches_wort_ist_groesser(wort1.as_str(), wort2.as_str());
    assert_eq!(chosen, "gleich");
    assert!(std::ptr::eq(chosen, wort1.as_str()));
}
