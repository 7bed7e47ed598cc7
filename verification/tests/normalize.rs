use dictation_hotkeys::normalize::{fold_synonyms, normalize_shortcut_string};
use dictation_hotkeys::text::{chars_of, matches_at, replace_all, string_of};

fn chars(s: &str) -> Vec<char> {
    s.chars().collect()
}

#[test]
fn ctrl_and_control_normalize_alike() {
    assert_eq!(
        normalize_shortcut_string("Ctrl+Shift+A"),
        normalize_shortcut_string("Control+Shift+A")
    );
    assert_eq!(normalize_shortcut_string("Ctrl+Shift+A"), "control+shift+a");
}

#[test]
fn cmd_meta_and_win_normalize_alike() {
    assert_eq!(normalize_shortcut_string("Cmd+K"), normalize_shortcut_string("Meta+K"));
    assert_eq!(normalize_shortcut_string("Meta+K"), normalize_shortcut_string("Win+K"));
    assert_eq!(normalize_shortcut_string("Win+K"), normalize_shortcut_string("Super+K"));
    assert_eq!(normalize_shortcut_string("Cmd+K"), "super+k");
}

#[test]
fn normalization_lowers_case() {
    assert_eq!(normalize_shortcut_string("CTRL"), "control");
    assert_eq!(normalize_shortcut_string("Alt+F4"), "alt+f4");
    assert_eq!(normalize_shortcut_string("SHIFT+ArrowUp"), "shift+arrowup");
    assert_eq!(normalize_shortcut_string("\u{c9}"), "\u{e9}");
}

#[test]
fn normalization_of_nothing_is_nothing() {
    assert_eq!(normalize_shortcut_string(""), "");
    assert_eq!(fold_synonyms(""), "");
}

#[test]
fn normalization_is_idempotent_on_samples() {
    let samples = [
        "Ctrl+Shift+A",
        "Control+Alt+Space",
        "cmd+meta+win+ctrl",
        "CmdOrCtrl+K",
        "cctrltrl",
        "wiwinn",
        "mmetaeta",
        "ccmdmd",
        "window",
        "super+control",
        "",
        "+",
        "\u{130}stanbul+\u{3a3}",
    ];
    for sample in samples {
        let once = normalize_shortcut_string(sample);
        let twice = normalize_shortcut_string(&once);
        assert_eq!(once, twice);
    }
}

#[test]
fn folding_is_idempotent_on_samples() {
    let samples = ["ctrl", "cctrltrl", "cmdctrlmetawin", "wi", "metametameta", "controlctrl"];
    for sample in samples {
        let once = fold_synonyms(sample);
        assert_eq!(fold_synonyms(&once), once);
    }
}

#[test]
fn folding_rewrites_each_synonym() {
    assert_eq!(fold_synonyms("ctrl"), "control");
    assert_eq!(fold_synonyms("cmd"), "super");
    assert_eq!(fold_synonyms("meta"), "super");
    assert_eq!(fold_synonyms("win"), "super");
    assert_eq!(fold_synonyms("ctrl+cmd+meta+win+x"), "control+super+super+super+x");
}

#[test]
fn folding_leaves_the_canonical_names() {
    assert_eq!(fold_synonyms("control+shift+super+alt+keya"), "control+shift+super+alt+keya");
}

#[test]
fn folding_matches_inside_longer_words() {
    assert_eq!(fold_synonyms("window"), "superdow");
    assert_eq!(fold_synonyms("cmdorctrl+k"), "superorcontrol+k");
}

#[test]
fn folding_keeps_upper_case_text() {
    assert_eq!(fold_synonyms("CTRL+Cmd"), "CTRL+Cmd");
}

#[test]
fn folding_scans_from_the_left() {
    assert_eq!(fold_synonyms("cctrltrl"), "ccontroltrl");
    assert_eq!(fold_synonyms("wiwinn"), "wisupern");
}

#[test]
fn replace_all_replaces_every_match() {
    assert_eq!(replace_all(&chars("abcabc"), &chars("bc"), &chars("X")), chars("aXaX"));
    assert_eq!(replace_all(&chars("aaaa"), &chars("aa"), &chars("b")), chars("bb"));
    assert_eq!(replace_all(&chars("aaa"), &chars("aa"), &chars("b")), chars("ba"));
    assert_eq!(replace_all(&chars("abc"), &chars("x"), &chars("y")), chars("abc"));
    assert_eq!(replace_all(&chars(""), &chars("x"), &chars("y")), chars(""));
    assert_eq!(replace_all(&chars("xyz"), &chars("xyz"), &chars("")), chars(""));
    assert_eq!(replace_all(&chars("ab"), &chars("abc"), &chars("z")), chars("ab"));
}

#[test]
fn replace_all_agrees_with_std_on_samples() {
    let texts = ["", "ctrl", "cctrltrl", "winwinwin", "a+b+c", "metameta", "xwin", "wi"];
    let pairs = [("ctrl", "control"), ("win", "super"), ("a", "aa"), ("+", "")];
    for text in texts {
        for (pat, with) in pairs {
            let ours: String = replace_all(&chars(text), &chars(pat), &chars(with)).iter().collect();
            assert_eq!(ours, text.replace(pat, with));
        }
    }
}

#[test]
fn matches_at_finds_the_pattern_in_place() {
    let text = chars("shift+ctrl");
    assert!(matches_at(&text, &chars("ctrl"), 6));
    assert!(!matches_at(&text, &chars("ctrl"), 5));
    assert!(!matches_at(&text, &chars("ctrl"), 7));
    assert!(matches_at(&text, &chars(""), 10));
    assert!(!matches_at(&text, &chars("l+"), 9));
}

#[test]
fn chars_and_strings_convert_both_ways() {
    assert_eq!(chars_of("a\u{e9}+"), vec!['a', '\u{e9}', '+']);
    assert_eq!(string_of(&vec!['a', '\u{e9}', '+']), "a\u{e9}+");
    assert_eq!(chars_of(""), Vec::<char>::new());
    assert_eq!(string_of(&Vec::new()), "");
}

#[test]
fn normalization_is_idempotent_on_every_single_character() {
    let mut buffer = [0u8; 4];
    for code in 0..=0x10ffffu32 {
        if let Some(c) = char::from_u32(code) {
            let once = normalize_shortcut_string(c.encode_utf8(&mut buffer));
            assert_eq!(normalize_shortcut_string(&once), once);
        }
    }
}

#[test]
fn normalization_is_idempotent_around_modifier_names() {
    let names = ["ctrl", "control", "cmd", "meta", "win", "super", "alt", "shift"];
    let joints = ["", "+", "c", "l", "w", "n", "m", "a", "s", "r", "t", "d", "e", "i"];
    for a in names {
        for joint in joints {
            for b in names {
                let text = format!("{a}{joint}{b}");
                let once = normalize_shortcut_string(&text);
                assert_eq!(normalize_shortcut_string(&once), once);
                let upper = text.to_uppercase();
                assert_eq!(normalize_shortcut_string(&upper), once);
            }
        }
    }
}
