use joshu_core::text::{
    chars_of, contains, is_accepted_char, is_ascii_punctuation, query_refines, string_of,
    strings_match, trim,
};

fn cs(s: &str) -> Vec<char> {
    s.chars().collect()
}

#[test]
fn chars_of_gives_the_characters_in_order() {
    assert_eq!(chars_of("abc"), vec!['a', 'b', 'c']);
    assert_eq!(chars_of(""), Vec::<char>::new());
    assert_eq!(chars_of("h\u{e9}llo"), vec!['h', '\u{e9}', 'l', 'l', 'o']);
}

#[test]
fn string_of_appends_each_character() {
    assert_eq!(string_of(&cs("abc")), "abc");
    assert_eq!(string_of(&Vec::new()), "");
    assert_eq!(string_of(&vec!['\u{3a3}', 'x']), "\u{3a3}x");
}

#[test]
fn chars_and_string_round_trip() {
    let text = "Finished displaying text";
    assert_eq!(string_of(&chars_of(text)), text);
}

#[test]
fn ascii_punctuation_is_the_four_ranges() {
    for c in ['!', '/', ':', '@', '[', '`', '{', '~', '.', ',', '?'] {
        assert!(is_ascii_punctuation(c), "{:?}", c);
    }
    for c in [' ', '0', '9', 'A', 'Z', 'a', 'z', '\u{7f}', '\n', '\u{e9}'] {
        assert!(!is_ascii_punctuation(c), "{:?}", c);
    }
}

#[test]
fn ascii_punctuation_agrees_with_std_on_all_of_ascii() {
    for b in 0u8..=127 {
        let c = b as char;
        assert_eq!(is_ascii_punctuation(c), c.is_ascii_punctuation(), "{:?}", c);
    }
}

#[test]
fn accepted_characters_are_letters_digits_punctuation_and_space() {
    for c in ['a', 'Z', '7', ' ', '!', '~', '\u{e9}', '\u{3a3}', '\u{4e2d}'] {
        assert!(is_accepted_char(c), "{:?}", c);
    }
    for c in ['\n', '\t', '\u{8}', '\u{1b}', '\u{7f}', '\u{a0}', '\u{2028}'] {
        assert!(!is_accepted_char(c), "{:?}", c);
    }
}

#[test]
fn trim_removes_whitespace_at_both_ends_only() {
    assert_eq!(trim(&cs("  a b \t\n")), cs("a b"));
    assert_eq!(trim(&cs("a b")), cs("a b"));
    assert_eq!(trim(&cs(" \u{a0}\u{3000}x\u{2003}")), cs("x"));
    assert_eq!(trim(&cs("   ")), cs(""));
    assert_eq!(trim(&cs("")), cs(""));
}

#[test]
fn trim_agrees_with_std() {
    for s in ["", " ", "a", " a", "a ", "  a  b  ", "\ta\n", "\u{85}x\u{1680}", "x\u{200b}"] {
        assert_eq!(string_of(&trim(&cs(s))), s.trim(), "{:?}", s);
    }
}

#[test]
fn contains_finds_a_run_of_consecutive_characters() {
    assert!(contains(&cs("banana"), &cs("an")));
    assert!(contains(&cs("banana"), &cs("banana")));
    assert!(contains(&cs("banana"), &cs("a")));
    assert!(contains(&cs("banana"), &cs("nana")));
    assert!(!contains(&cs("banana"), &cs("bnn")));
    assert!(!contains(&cs("banana"), &cs("bananas")));
    assert!(!contains(&cs("banana"), &cs("x")));
}

#[test]
fn contains_takes_the_empty_text_everywhere() {
    assert!(contains(&cs("banana"), &cs("")));
    assert!(contains(&cs(""), &cs("")));
    assert!(!contains(&cs(""), &cs("a")));
}

#[test]
fn contains_agrees_with_std() {
    let hays = ["", "a", "ab", "aab", "abab", "mississippi"];
    let needles = ["", "a", "b", "ab", "ba", "aab", "ssi", "ssip", "ppi", "pp", "mississippis"];
    for hay in hays {
        for needle in needles {
            assert_eq!(contains(&cs(hay), &cs(needle)), hay.contains(needle), "{hay:?} {needle:?}");
        }
    }
}

#[test]
fn strings_match_ignores_case() {
    assert!(strings_match("Banana", "an"));
    assert!(strings_match("Banana", "AN"));
    assert!(strings_match("BANANA", "nan"));
    assert!(strings_match("banana", "BAN"));
    assert!(!strings_match("Apple", "an"));
    assert!(!strings_match("Cherry", "an"));
}

#[test]
fn strings_match_ignores_whitespace_around_the_option() {
    assert!(strings_match("  Banana  ", "ban"));
    assert!(strings_match("\tBanana\n", "nana"));
    assert!(strings_match("New York", "w y"));
    assert!(!strings_match("NewYork", "w y"));
}

#[test]
fn strings_match_takes_the_query_whole() {
    assert!(!strings_match("Banana", "  ban  "));
    assert!(!strings_match("Banana", "ban "));
    assert!(!strings_match("Banana", " ban"));
    assert!(strings_match("a b", "a "));
    assert!(!strings_match("ab", "a "));
    assert!(strings_match("New York", " y"));
    // the option's own trailing space is trimmed away before the match
    assert!(!strings_match("Banana ", "a "));
}

#[test]
fn strings_match_takes_every_option_for_the_empty_query_only() {
    assert!(strings_match("Banana", ""));
    assert!(strings_match("", ""));
    assert!(strings_match("   ", ""));
    assert!(!strings_match("", "a"));
    assert!(!strings_match("Banana", " "));
    assert!(!strings_match("Banana", "   "));
    assert!(strings_match("Ba   nana", "   "));
}

#[test]
fn strings_match_lowercases_beyond_ascii() {
    assert!(strings_match("\u{c9}COLE", "\u{e9}c"));
    assert!(strings_match("\u{e9}cole", "\u{c9}C"));
    assert!(strings_match("\u{391}\u{3a3}\u{391}", "\u{3b1}\u{3c3}\u{3b1}"));
}

#[test]
fn strings_match_agrees_with_std() {
    let options =
        ["Apple", " Banana ", "CHERRY", "a b", "\u{391}\u{3a3}", "\u{391}\u{3a3}\u{391}", ""];
    let queries =
        ["", " ", "a", "a ", " B", "AN", "rr", " ch", "\u{391}\u{3a3}", "\u{3c3}", "\u{3c2}"];
    for option in options {
        for query in queries {
            let expected = option.trim().to_lowercase().contains(&query.to_lowercase());
            assert_eq!(strings_match(option, query), expected, "{option:?} {query:?}");
        }
    }
}

#[test]
fn a_query_refines_those_that_occur_in_it() {
    assert!(query_refines("an", "a"));
    assert!(query_refines("AN", "a"));
    assert!(query_refines("a", "A"));
    assert!(query_refines("ban", "an"));
    assert!(query_refines("a ", "a"));
    assert!(query_refines("a", "a"));
    assert!(!query_refines("a", "an"));
    assert!(!query_refines("ab", "ba"));
    assert!(!query_refines("a", "a "));
}

#[test]
fn every_query_refines_the_empty_one_and_the_empty_one_only_itself() {
    assert!(query_refines("", ""));
    assert!(query_refines("a", ""));
    assert!(query_refines(" ", ""));
    assert!(!query_refines("", "a"));
    assert!(!query_refines("", " "));
}

#[test]
fn a_query_need_not_refine_its_own_beginning() {
    // a capital sigma at the end of a word is lowercased otherwise than inside it
    assert!(!query_refines("\u{391}\u{3a3}\u{391}", "\u{391}\u{3a3}"));
    assert!(query_refines("\u{391}\u{3a3}\u{391}", "\u{391}"));
}

#[test]
fn a_refining_query_selects_no_more() {
    let options = ["Apple pie", "apple", " Pineapple ", "Maple", "a b", "ab", "", "\u{391}\u{3a3}"];
    let queries = ["", "a", "a ", "ap", "AP", "ple", "pl", "b", " b", "\u{3a3}", "\u{391}\u{3a3}"];
    for new in queries {
        for old in queries {
            if query_refines(new, old) {
                for option in options {
                    assert!(
                        !strings_match(option, new) || strings_match(option, old),
                        "{new:?} {old:?} {option:?}"
                    );
                }
            }
        }
    }
}
