use simple_gallery::paths::join;
use simple_gallery::text::{lower, lowers_to, rank_text, Rank};

#[test]
fn text_ranks_by_the_first_difference() {
    assert_eq!(rank_text("abc", "abd"), Rank::Before);
    assert_eq!(rank_text("abd", "abc"), Rank::After);
    assert_eq!(rank_text("abc", "abc"), Rank::Same);
    assert_eq!(rank_text("b", "abc"), Rank::After);
}

#[test]
fn a_prefix_ranks_before_what_it_starts() {
    assert_eq!(rank_text("", ""), Rank::Same);
    assert_eq!(rank_text("", "a"), Rank::Before);
    assert_eq!(rank_text("a", ""), Rank::After);
    assert_eq!(rank_text("ab", "abc"), Rank::Before);
    assert_eq!(rank_text("abc", "ab"), Rank::After);
}

#[test]
fn text_ranks_by_code_point() {
    assert_eq!(rank_text("Z", "a"), Rank::Before);
    assert_eq!(rank_text("z", "é"), Rank::Before);
    assert_eq!(rank_text("\u{ffff}", "\u{10000}"), Rank::Before);
    assert_eq!(rank_text("é", "e\u{301}"), Rank::After);
}

#[test]
fn text_ranks_as_strings_compare() {
    let texts = ["", "a", "A", "ab", "b", "é", "e\u{301}", "日本", "\u{ffff}", "\u{10000}", "~"];
    for a in texts {
        for b in texts {
            let want = if a < b {
                Rank::Before
            } else if a == b {
                Rank::Same
            } else {
                Rank::After
            };
            assert_eq!(rank_text(a, b), want);
        }
    }
}

#[test]
fn only_ascii_capitals_are_lowered() {
    assert_eq!(lower('A'), 'a');
    assert_eq!(lower('Z'), 'z');
    assert_eq!(lower('M'), 'm');
    assert_eq!(lower('a'), 'a');
    assert_eq!(lower('@'), '@');
    assert_eq!(lower('['), '[');
    assert_eq!(lower('5'), '5');
    assert_eq!(lower('É'), 'É');
    assert_eq!(lower('\u{212a}'), '\u{212a}');
}

#[test]
fn lowered_text_is_matched_whole() {
    assert!(lowers_to("", ""));
    assert!(lowers_to("AbC", "abc"));
    assert!(lowers_to("abc", "abc"));
    assert!(!lowers_to("abc", "ABC"));
    assert!(!lowers_to("ab", "abc"));
    assert!(!lowers_to("abcd", "abc"));
    assert!(!lowers_to("abd", "abc"));
    assert!(!lowers_to("", "a"));
}

#[test]
fn joining_puts_one_separator_between() {
    assert_eq!(join("gallery", "cats"), "gallery/cats");
    assert_eq!(join("gallery/", "cats"), "gallery/cats");
    assert_eq!(join("/gallery/", "cats/fluffy.jpg"), "/gallery/cats/fluffy.jpg");
    assert_eq!(join("a/b", "c"), "a/b/c");
}

#[test]
fn joining_onto_nothing_gives_the_part() {
    assert_eq!(join("", "cats"), "cats");
    assert_eq!(join("", ""), "");
}

#[test]
fn joining_nothing_ends_the_base_in_a_separator() {
    assert_eq!(join("/gallery/", ""), "/gallery/");
    assert_eq!(join("gallery", ""), "gallery/");
}

#[test]
fn joining_an_absolute_part_gives_the_part() {
    assert_eq!(join("gallery/", "/etc/passwd"), "/etc/passwd");
    assert_eq!(join("", "/"), "/");
}

#[test]
fn joining_agrees_with_the_standard_paths() {
    let parts = ["", "a", "a/", "/a", "a/b", "/", "é", "a b", "x/y/"];
    for base in parts {
        for part in parts {
            let want = std::path::Path::new(base).join(part);
            assert_eq!(join(base, part), want.to_str().unwrap());
        }
    }
}
