use apple_music_discord_rs::text::is_reserved_char;
use apple_music_discord_rs::text::is_white_space_char;
use apple_music_discord_rs::text::lucene_escape;
use apple_music_discord_rs::text::remove_parentheses_content;
use apple_music_discord_rs::text::truncate_string;
use apple_music_discord_rs::text::truncate_to;

#[test]
fn escape_leaves_plain_text_alone() {
    assert_eq!(lucene_escape("Abbey Road"), "Abbey Road");
    assert_eq!(lucene_escape(""), "");
    assert_eq!(lucene_escape("Sigur Rós, ágætis byrjun"), "Sigur Rós, ágætis byrjun");
}

#[test]
fn escape_marks_every_reserved_character() {
    assert_eq!(
        lucene_escape("+-&|!(){}[]^\"~*?:\\"),
        "\\+\\-\\&\\|\\!\\(\\)\\{\\}\\[\\]\\^\\\"\\~\\*\\?\\:\\\\"
    );
}

#[test]
fn escape_keeps_the_order_of_the_text() {
    assert_eq!(lucene_escape("AC/DC: Back (Live)"), "AC/DC\\: Back \\(Live\\)");
    assert_eq!(lucene_escape("What's Going On?"), "What's Going On\\?");
    assert_eq!(lucene_escape("a+b"), "a\\+b");
}

#[test]
fn escape_of_escaped_text_escapes_again() {
    let once = lucene_escape("a:b");
    assert_eq!(once, "a\\:b");
    assert_eq!(lucene_escape(&once), "a\\\\\\:b");
}

#[test]
fn escape_puts_the_marker_right_before_each_reserved_character() {
    let input = "1+1=2 (really?) [yes] {no} ~maybe~ \"x\" a&b|c!d^e*f:g\\h-i";
    let output: Vec<char> = lucene_escape(input).chars().collect();
    let mut at = 0;
    for c in input.chars() {
        if is_reserved_char(c) {
            assert_eq!(output[at], '\\');
            at += 1;
        }
        assert_eq!(output[at], c);
        at += 1;
    }
    assert_eq!(at, output.len());
}

#[test]
fn reserved_characters_are_the_eighteen() {
    let reserved: Vec<char> = (0u32..=0x10ffff)
        .filter_map(char::from_u32)
        .filter(|c| is_reserved_char(*c))
        .collect();
    let mut expected: Vec<char> = "+-&|!(){}[]^\"~*?:\\".chars().collect();
    expected.sort();
    assert_eq!(reserved, expected);
}

#[test]
fn strip_removes_remark() {
    assert_eq!(remove_parentheses_content("Album (Remastered)"), "Album");
    assert_eq!(remove_parentheses_content("Thriller (25th Anniversary) [Deluxe]"), "Thriller  [Deluxe]");
}

#[test]
fn strip_follows_nesting() {
    assert_eq!(remove_parentheses_content("A (B (C) D) E"), "A  E");
    assert_eq!(remove_parentheses_content("((a)(b))c"), "c");
    assert_eq!(remove_parentheses_content("x((y)z"), "x");
}

#[test]
fn strip_of_balanced_text_keeps_inner_spaces() {
    assert_eq!(remove_parentheses_content("A (B) C"), "A  C");
}

#[test]
fn strip_keeps_a_closing_parenthesis_that_closes_nothing() {
    assert_eq!(remove_parentheses_content("a) b"), "a) b");
    assert_eq!(remove_parentheses_content(")"), ")");
    assert_eq!(remove_parentheses_content("(a)) b"), ") b");
    assert_eq!(remove_parentheses_content(") (x) ("), ")");
}

#[test]
fn strip_drops_what_follows_an_unclosed_parenthesis() {
    assert_eq!(remove_parentheses_content("Live (at Wembley"), "Live");
    assert_eq!(remove_parentheses_content("(a"), "");
}

#[test]
fn strip_trims_both_ends() {
    assert_eq!(remove_parentheses_content("  x  "), "x");
    assert_eq!(remove_parentheses_content("\t\n x y \r\n"), "x y");
    assert_eq!(remove_parentheses_content("\u{a0}x\u{3000}"), "x");
    assert_eq!(remove_parentheses_content("   "), "");
    assert_eq!(remove_parentheses_content(""), "");
    assert_eq!(remove_parentheses_content("(all)"), "");
}

#[test]
fn strip_trims_what_the_standard_library_trims() {
    for text in ["  a (b) ", "\u{2003}Ünïcödé (x)\u{2028}", "\u{200b}zero width\u{200b}", "\u{180e}mongolian"] {
        let mut outside = String::new();
        let mut depth = 0;
        for c in text.chars() {
            if c == '(' {
                depth += 1;
            } else if c == ')' && depth > 0 {
                depth -= 1;
            } else if depth == 0 {
                outside.push(c);
            }
        }
        assert_eq!(remove_parentheses_content(text), outside.trim());
    }
}

#[test]
fn white_space_is_what_the_standard_library_calls_so() {
    for c in (0u32..=0x10ffff).filter_map(char::from_u32) {
        assert_eq!(is_white_space_char(c), c.is_whitespace(), "U+{:04X}", c as u32);
    }
}

#[test]
fn truncate_keeps_short_text() {
    assert_eq!(truncate_string("Thriller"), "Thriller");
    assert_eq!(truncate_string(""), "");
}

#[test]
fn truncate_keeps_text_of_128_characters() {
    let text = "a".repeat(128);
    assert_eq!(truncate_string(&text), text);
}

#[test]
fn truncate_cuts_text_of_129_characters_to_128() {
    let text = "b".repeat(129);
    let cut = truncate_string(&text);
    assert_eq!(cut.chars().count(), 128);
    assert_eq!(cut, format!("{}...", "b".repeat(125)));
    assert!(cut.ends_with("..."));
}

#[test]
fn truncate_keeps_the_first_125_characters() {
    let text: String = (0..300).map(|i| char::from(b'a' + (i % 26) as u8)).collect();
    let cut = truncate_string(&text);
    assert_eq!(cut.len(), 128);
    assert_eq!(&cut[..125], &text[..125]);
    assert_eq!(&cut[125..], "...");
}

#[test]
fn truncate_counts_characters() {
    let short = "é".repeat(128);
    assert_eq!(truncate_string(&short), short);
    let long = "é".repeat(129);
    let cut = truncate_string(&long);
    assert_eq!(cut.chars().count(), 128);
    assert_eq!(cut, format!("{}...", "é".repeat(125)));
}

#[test]
fn truncate_to_another_length() {
    assert_eq!(truncate_to("Michael Jackson", 15), "Michael Jackson");
    assert_eq!(truncate_to("Michael Jackson", 14), "Michael Jac...");
    assert_eq!(truncate_to("Michael Jackson", 3), "...");
    assert_eq!(truncate_to("ab", 3), "ab");
    assert_eq!(truncate_to("", 3), "");
}
