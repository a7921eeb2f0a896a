use clipboard_processor::media::{
    classify_extension, classify_path, extension_of, fold_char, folds_to, is_listed,
    needs_no_conversion, MediaKind,
};
use clipboard_processor::policy::Policy;
use clipboard_processor::text::{chars_of, trim, white_space};

#[test]
fn extension_follows_last_dot_of_file_name() {
    assert_eq!(extension_of("C:\\a.mp4"), "mp4");
    assert_eq!(extension_of("C:\\music\\song.tar.GZ"), "GZ");
    assert_eq!(extension_of("/home/me/clip.webm"), "webm");
    assert_eq!(extension_of("plain.wav"), "wav");
}

#[test]
fn extension_is_empty_without_a_dot_in_the_name() {
    assert_eq!(extension_of("C:\\dir.x\\file"), "");
    assert_eq!(extension_of("C:\\dir.x/file"), "");
    assert_eq!(extension_of("file"), "");
    assert_eq!(extension_of(""), "");
    assert_eq!(extension_of("C:\\dir\\"), "");
}

#[test]
fn extension_is_empty_where_the_only_dot_comes_first() {
    assert_eq!(extension_of(".bashrc"), "");
    assert_eq!(extension_of("C:\\x\\.hidden"), "");
    assert_eq!(extension_of("C:\\x\\.hidden.mp3"), "mp3");
}

#[test]
fn extension_may_be_empty_after_a_final_dot() {
    assert_eq!(extension_of("name."), "");
    assert_eq!(extension_of("a.b."), "");
}

#[test]
fn extension_keeps_characters_beyond_ascii() {
    assert_eq!(extension_of("C:\\été\\chanson.mp3"), "mp3");
    assert_eq!(extension_of("C:\\a.\u{212A}"), "\u{212A}");
}

#[test]
fn fold_char_lowers_capitals_and_the_kelvin_sign() {
    assert_eq!(fold_char('A'), 'a');
    assert_eq!(fold_char('Z'), 'z');
    assert_eq!(fold_char('M'), 'm');
    assert_eq!(fold_char('a'), 'a');
    assert_eq!(fold_char('3'), '3');
    assert_eq!(fold_char('@'), '@');
    assert_eq!(fold_char('['), '[');
    assert_eq!(fold_char('\u{212A}'), 'k');
    assert_eq!(fold_char('É'), 'É');
}

#[test]
fn folds_to_compares_without_case() {
    assert!(folds_to("MP3", "mp3"));
    assert!(folds_to("mP3", "mp3"));
    assert!(!folds_to("mp4", "mp3"));
    assert!(!folds_to("mp", "mp3"));
    assert!(!folds_to("mp33", "mp3"));
    assert!(folds_to("", ""));
}

#[test]
fn every_audio_extension_is_audio() {
    let policy = Policy::standard();
    for ext in ["wav", "mp3", "m4a", "ogg", "flac", "aac", "wma", "opus", "aiff", "aif"] {
        assert!(is_listed(&policy.audio_extensions, ext));
        assert!(is_listed(&policy.audio_extensions, &ext.to_uppercase()));
        assert!(!is_listed(&policy.video_extensions, ext));
        assert_eq!(classify_extension(&policy, ext), MediaKind::Audio);
    }
}

#[test]
fn every_video_extension_is_video() {
    let policy = Policy::standard();
    for ext in ["mp4", "mkv", "mov", "avi", "wmv", "flv", "webm", "mpeg", "mpg", "m4v", "3gp"] {
        assert!(is_listed(&policy.video_extensions, ext));
        assert!(is_listed(&policy.video_extensions, &ext.to_uppercase()));
        assert!(!is_listed(&policy.audio_extensions, ext));
        assert_eq!(classify_extension(&policy, ext), MediaKind::Video);
    }
}

#[test]
fn other_extensions_are_unsupported() {
    let policy = Policy::standard();
    for ext in ["", "txt", "png", "mp", "mp34", "wave", "exe", "mp3 "] {
        assert_eq!(classify_extension(&policy, ext), MediaKind::Unsupported);
    }
}

#[test]
fn kelvin_sign_counts_as_k() {
    let policy = Policy::standard();
    assert_eq!(classify_extension(&policy, "m\u{212A}v"), MediaKind::Video);
    assert_eq!(classify_extension(&policy, "m\u{212A}v"), classify_extension(&policy, &"m\u{212A}v".to_lowercase()));
}

#[test]
fn paths_are_classified_by_their_extension() {
    let policy = Policy::standard();
    assert_eq!(classify_path(&policy, "C:\\a.WAV"), MediaKind::Audio);
    assert_eq!(classify_path(&policy, "C:\\a.Mp4"), MediaKind::Video);
    assert_eq!(classify_path(&policy, "C:\\a.txt"), MediaKind::Unsupported);
    assert_eq!(classify_path(&policy, "C:\\mp3"), MediaKind::Unsupported);
    assert_eq!(classify_path(&policy, "C:\\dir.mp3\\notes"), MediaKind::Unsupported);
}

#[test]
fn only_mp3_needs_no_conversion() {
    assert!(needs_no_conversion("C:\\a.mp3"));
    assert!(needs_no_conversion("C:\\a.MP3"));
    assert!(!needs_no_conversion("C:\\a.wav"));
    assert!(!needs_no_conversion("C:\\a.mp4"));
    assert!(!needs_no_conversion("C:\\mp3"));
}

#[test]
fn chars_of_lists_the_characters() {
    assert_eq!(chars_of("aé\u{1F600}"), vec!['a', 'é', '\u{1F600}']);
    assert_eq!(chars_of(""), Vec::<char>::new());
}

#[test]
fn trim_removes_white_space_at_both_ends() {
    assert_eq!(trim("  hello world \r\n"), "hello world");
    assert_eq!(trim("hello"), "hello");
    assert_eq!(trim("\u{3000}é \u{A0}"), "é");
    assert_eq!(trim("a b"), "a b");
    assert_eq!(trim(" x"), "x");
    assert_eq!(trim("x "), "x");
}

#[test]
fn trim_of_blank_text_is_empty() {
    assert_eq!(trim(""), "");
    assert_eq!(trim("   "), "");
    assert_eq!(trim("\n\t\r "), "");
    assert_eq!(trim("\u{2028}\u{2029}"), "");
}

#[test]
fn trim_agrees_with_the_standard_library() {
    for s in ["", " ", " a ", "a \u{85} b\u{85}", "\u{200B} x", "\u{FEFF}x ", "é\n", "\u{1680}\u{2000}z\u{200A}"] {
        assert_eq!(trim(s), s.trim());
    }
}

#[test]
fn standard_policy_lists_its_extensions() {
    let policy = Policy::standard();
    assert_eq!(
        policy.audio_extensions,
        vec!["wav", "mp3", "m4a", "ogg", "flac", "aac", "wma", "opus", "aiff", "aif"]
    );
    assert_eq!(
        policy.video_extensions,
        vec!["mp4", "mkv", "mov", "avi", "wmv", "flv", "webm", "mpeg", "mpg", "m4v", "3gp"]
    );
    assert_eq!(policy.size_ceiling, 25 * 1024 * 1024);
}

#[test]
fn a_policy_of_ones_own_routes_by_its_lists() {
    let policy = Policy {
        audio_extensions: vec!["snd".to_string(), "both".to_string()],
        video_extensions: vec!["both".to_string(), "film".to_string()],
        size_ceiling: 10,
    };
    assert_eq!(classify_path(&policy, "a.SND"), MediaKind::Audio);
    assert_eq!(classify_path(&policy, "a.Film"), MediaKind::Video);
    assert_eq!(classify_path(&policy, "a.both"), MediaKind::Audio);
    assert_eq!(classify_path(&policy, "a.mp3"), MediaKind::Unsupported);
    assert!(!is_listed(&Vec::new(), "snd"));
}

#[test]
fn entries_of_a_list_are_not_folded() {
    let policy = Policy {
        audio_extensions: vec!["WAV".to_string()],
        video_extensions: Vec::new(),
        size_ceiling: 10,
    };
    assert_eq!(classify_path(&policy, "a.wav"), MediaKind::Unsupported);
    assert_eq!(classify_path(&policy, "a.WAV"), MediaKind::Unsupported);
}

#[test]
fn separators_at_the_end_of_a_path_are_left_aside() {
    assert_eq!(extension_of("C:\\x\\a.mp3\\"), "mp3");
    assert_eq!(extension_of("C:\\x\\a.mp3\\/\\"), "mp3");
    assert_eq!(extension_of("/home/me/clip.webm/"), "webm");
    assert_eq!(extension_of("\\"), "");
    assert_eq!(extension_of("///"), "");
    assert_eq!(extension_of("C:\\dir.x\\file\\"), "");
    assert_eq!(extension_of("C:\\x\\.hidden\\"), "");
}

#[test]
fn a_final_dot_component_is_a_file_name() {
    assert_eq!(extension_of("C:\\x\\a.mp3\\."), "");
    assert_eq!(extension_of("C:\\x\\a.mp3\\.."), "");
}

#[test]
fn extension_agrees_with_the_standard_library_on_plain_paths() {
    for path in ["a.mp3", "/x/a.MP4", "/x/.hidden", "/x/a.tar.gz", "/x.y/z", "/x/a.", "/x/a.mp3/", "", "/"] {
        let expected = std::path::Path::new(path)
            .extension()
            .and_then(|e| e.to_str())
            .unwrap_or_default();
        assert_eq!(extension_of(path), expected);
    }
}

#[test]
fn white_space_is_what_the_standard_library_calls_so() {
    for code in 0..=0x10FFFFu32 {
        if let Some(c) = char::from_u32(code) {
            assert_eq!(white_space(c), c.is_whitespace());
        }
    }
}

#[test]
fn white_space_has_25_characters() {
    let count = (0..=0x10FFFFu32).filter_map(char::from_u32).filter(|c| white_space(*c)).count();
    assert_eq!(count, 25);
    for c in [' ', '\t', '\n', '\r', '\u{b}', '\u{c}', '\u{85}', '\u{a0}', '\u{3000}'] {
        assert!(white_space(c));
    }
    for c in ['a', '0', '\u{200b}', '\u{feff}', '\u{180e}', '\u{8}', '\u{e}'] {
        assert!(!white_space(c));
    }
}
