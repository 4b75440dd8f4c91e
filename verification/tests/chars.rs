use apple_music_discord_rs::chars::chars_of;
use apple_music_discord_rs::chars::contains;
use apple_music_discord_rs::chars::remove_char;
use apple_music_discord_rs::chars::string_of;

#[test]
fn chars_of_lists_characters() {
    assert_eq!(chars_of("añb"), vec!['a', 'ñ', 'b']);
    assert_eq!(chars_of(""), Vec::<char>::new());
}

#[test]
fn string_of_takes_a_range() {
    let chars = vec!['h', 'e', 'l', 'l', 'o'];
    assert_eq!(string_of(&chars, 1, 4), "ell");
    assert_eq!(string_of(&chars, 0, 5), "hello");
    assert_eq!(string_of(&chars, 2, 2), "");
}

#[test]
fn contains_finds_a_run_of_characters() {
    assert!(contains("Various Artists", "Various Artist"));
    assert!(contains("abc", "abc"));
    assert!(contains("abc", "bc"));
    assert!(contains("abc", ""));
    assert!(contains("", ""));
    assert!(contains("aab", "ab"));
    assert!(contains("日本語のテキスト", "のテ"));
}

#[test]
fn contains_misses_what_is_not_there() {
    assert!(!contains("abc", "abcd"));
    assert!(!contains("abc", "ac"));
    assert!(!contains("", "a"));
    assert!(!contains("Single", "single"));
    assert!(!contains("abab", "bb"));
}

#[test]
fn contains_agrees_with_the_standard_library() {
    let texts = ["", "a", "ab", "ba", "aba", "abab", "bbb", "ééa", "aéé"];
    for hay in texts {
        for needle in texts {
            assert_eq!(contains(hay, needle), hay.contains(needle), "{hay:?} {needle:?}");
        }
    }
}

#[test]
fn remove_char_drops_every_occurrence() {
    assert_eq!(remove_char("a*b**c*", '*'), "abc");
    assert_eq!(remove_char("***", '*'), "");
    assert_eq!(remove_char("abc", '*'), "abc");
    assert_eq!(remove_char("", '*'), "");
}
