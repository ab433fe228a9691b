use envprobe::text::{
    begins_with, chars_of, find, holds, matches_at, rows_from, same_chars, scan_to, split_lines,
    trimmed, white_space,
};

fn text_of(chars: &Vec<char>) -> String {
    chars.iter().collect()
}

fn samples() -> Vec<&'static str> {
    vec![
        "",
        "a",
        "\n",
        "\r\n",
        "\r",
        "a\n",
        "a\r\n",
        "a\r",
        "a\r\r\n",
        "a\n\nb",
        "a\n\n",
        "\n\n",
        "\na",
        "one\ntwo\r\nthree",
        "one\ntwo\r\nthree\n",
        "  padded  \n\ttabbed\t\r\n",
        "\u{a0}no-break\u{2003}\n\u{3000}wide\u{85}",
        "08:00:27-AA-BB-CC   \\Device\\Tcpip\r\n",
        "   \n   \r\n",
        "caf\u{e9} \u{1f600}\nnext",
    ]
}

#[test]
fn chars_of_gives_the_characters_in_order() {
    assert_eq!(chars_of(""), Vec::<char>::new());
    assert_eq!(chars_of("abc"), vec!['a', 'b', 'c']);
    assert_eq!(chars_of("caf\u{e9}"), vec!['c', 'a', 'f', '\u{e9}']);
    for sample in samples() {
        assert_eq!(chars_of(sample), sample.chars().collect::<Vec<char>>());
    }
}

#[test]
fn white_space_agrees_with_the_standard_library_on_every_character() {
    let mut code: u32 = 0;
    while code <= 0x10FFFF {
        if let Some(c) = char::from_u32(code) {
            assert_eq!(white_space(c), c.is_whitespace(), "character {:#x}", code);
        }
        code += 1;
    }
}

#[test]
fn white_space_on_chosen_characters() {
    assert!(white_space(' '));
    assert!(white_space('\t'));
    assert!(white_space('\n'));
    assert!(white_space('\r'));
    assert!(white_space('\u{b}'));
    assert!(white_space('\u{c}'));
    assert!(white_space('\u{85}'));
    assert!(white_space('\u{a0}'));
    assert!(white_space('\u{1680}'));
    assert!(white_space('\u{2000}'));
    assert!(white_space('\u{200a}'));
    assert!(white_space('\u{2028}'));
    assert!(white_space('\u{2029}'));
    assert!(white_space('\u{202f}'));
    assert!(white_space('\u{205f}'));
    assert!(white_space('\u{3000}'));
    assert!(!white_space('a'));
    assert!(!white_space('\u{8}'));
    assert!(!white_space('\u{e}'));
    assert!(!white_space('\u{200b}'));
    assert!(!white_space('\u{1f}'));
    assert!(!white_space('\u{feff}'));
}

#[test]
fn trimmed_agrees_with_the_standard_library() {
    for sample in samples() {
        assert_eq!(text_of(&trimmed(&chars_of(sample))), sample.trim(), "sample {:?}", sample);
    }
}

#[test]
fn trimmed_on_chosen_strings() {
    assert_eq!(text_of(&trimmed(&chars_of("  a b  "))), "a b");
    assert_eq!(text_of(&trimmed(&chars_of("\t\r\n"))), "");
    assert_eq!(text_of(&trimmed(&chars_of(""))), "");
    assert_eq!(text_of(&trimmed(&chars_of("x"))), "x");
    assert_eq!(text_of(&trimmed(&chars_of("\u{3000}x y\u{a0}"))), "x y");
}

#[test]
fn split_lines_agrees_with_the_standard_library() {
    for sample in samples() {
        let rows: Vec<String> = split_lines(&chars_of(sample)).iter().map(text_of).collect();
        let expected: Vec<String> = sample.lines().map(String::from).collect();
        assert_eq!(rows, expected, "sample {:?}", sample);
    }
}

#[test]
fn split_lines_on_chosen_strings() {
    let rows = |text: &str| -> Vec<String> {
        split_lines(&chars_of(text)).iter().map(text_of).collect()
    };
    assert_eq!(rows(""), Vec::<String>::new());
    assert_eq!(rows("a"), vec!["a"]);
    assert_eq!(rows("a\n"), vec!["a"]);
    assert_eq!(rows("a\r\n"), vec!["a"]);
    assert_eq!(rows("a\r"), vec!["a\r"]);
    assert_eq!(rows("a\r\r\n"), vec!["a\r"]);
    assert_eq!(rows("\n"), vec![""]);
    assert_eq!(rows("a\n\nb"), vec!["a", "", "b"]);
    assert_eq!(rows("a\nb\n"), vec!["a", "b"]);
}

#[test]
fn scan_to_finds_the_first_occurrence_from_a_position() {
    let chars = chars_of("a\\bc\\d");
    assert_eq!(scan_to(&chars, 0, '\\'), 1);
    assert_eq!(scan_to(&chars, 1, '\\'), 1);
    assert_eq!(scan_to(&chars, 2, '\\'), 4);
    assert_eq!(scan_to(&chars, 5, '\\'), 6);
    assert_eq!(scan_to(&chars, 6, '\\'), 6);
    assert_eq!(scan_to(&chars, 9, '\\'), 6);
    assert_eq!(scan_to(&chars, 0, 'z'), 6);
    assert_eq!(scan_to(&Vec::new(), 0, 'z'), 0);
}

#[test]
fn matches_at_compares_at_the_given_position() {
    let hay = chars_of("VBoxGuest.sys");
    assert!(matches_at(&hay, &chars_of("VBox"), 0));
    assert!(matches_at(&hay, &chars_of("Guest"), 4));
    assert!(matches_at(&hay, &chars_of(".sys"), 9));
    assert!(!matches_at(&hay, &chars_of(".sys"), 10));
    assert!(!matches_at(&hay, &chars_of("Guest"), 3));
    assert!(matches_at(&hay, &chars_of(""), 0));
    assert!(matches_at(&hay, &chars_of(""), 13));
    assert!(!matches_at(&hay, &chars_of(""), 14));
    assert!(!matches_at(&hay, &chars_of("VBoxGuest.sys!"), 0));
    assert!(!matches_at(&hay, &chars_of("s"), usize::MAX));
}

#[test]
fn begins_with_agrees_with_the_standard_library() {
    let pairs = [
        ("08:00:27-AA", "08:00:27"),
        ("08:00:27", "08:00:27"),
        ("08:00:2", "08:00:27"),
        ("x08:00:27", "08:00:27"),
        ("", ""),
        ("abc", ""),
        ("", "a"),
        ("HKEY_LOCAL_MACHINEFOO", "HKEY_LOCAL_MACHINE"),
        ("hkey_local_machine\\x", "HKEY_LOCAL_MACHINE"),
    ];
    for (hay, needle) in pairs {
        assert_eq!(
            begins_with(&chars_of(hay), &chars_of(needle)),
            hay.starts_with(needle),
            "{:?} {:?}",
            hay,
            needle
        );
    }
    assert!(begins_with(&chars_of("08:00:27-AA"), &chars_of("08:00:27")));
    assert!(!begins_with(&chars_of("x08:00:27"), &chars_of("08:00:27")));
}

#[test]
fn holds_and_find_agree_with_the_standard_library() {
    let pairs = [
        ("VMwareVMware", "VMware"),
        ("KVMKVMKVM\0\0\0", "KVM"),
        ("GenuineIntel", "VBox"),
        ("xVBoxGuest.sysx", "VBoxGuest.sys"),
        ("vboxguest.sys", "VBoxGuest.sys"),
        ("aaab", "aab"),
        ("abcabd", "abd"),
        ("", ""),
        ("abc", ""),
        ("", "a"),
        ("ab", "abc"),
        ("caf\u{e9}s", "\u{e9}s"),
    ];
    for (hay, needle) in pairs {
        let h = chars_of(hay);
        let n = chars_of(needle);
        assert_eq!(holds(&h, &n), hay.contains(needle), "{:?} {:?}", hay, needle);
        let expected = hay.find(needle).map(|bytes| hay[..bytes].chars().count());
        assert_eq!(find(&h, &n), expected, "{:?} {:?}", hay, needle);
    }
    assert_eq!(find(&chars_of("aaab"), &chars_of("aab")), Some(1));
    assert_eq!(find(&chars_of("abab"), &chars_of("ab")), Some(0));
    assert_eq!(find(&chars_of("abab"), &chars_of("ba")), Some(1));
    assert_eq!(find(&chars_of("abab"), &chars_of("bb")), None);
    assert_eq!(find(&chars_of("abab"), &chars_of("")), Some(0));
}

#[test]
fn same_chars_is_equality() {
    assert!(same_chars(&chars_of("VBoxTray.exe"), &chars_of("VBoxTray.exe")));
    assert!(!same_chars(&chars_of("VBoxTray.exe"), &chars_of("vboxtray.exe")));
    assert!(!same_chars(&chars_of("VBoxTray.exe"), &chars_of("VBoxTray.ex")));
    assert!(!same_chars(&chars_of("VBoxTray.ex"), &chars_of("VBoxTray.exe")));
    assert!(same_chars(&chars_of(""), &chars_of("")));
}

#[test]
fn rows_from_gives_the_characters_of_each_string() {
    let strings = vec![String::from("ab"), String::new(), String::from("c")];
    assert_eq!(rows_from(&strings), vec![vec!['a', 'b'], vec![], vec!['c']]);
    assert_eq!(rows_from(&Vec::new()), Vec::<Vec<char>>::new());
}
