use rsfilename::text::{chars_of, to_uppercase};
use rsfilename::{
    is_name_reserved, is_safe_name, is_safe_unless_name_reserved, is_uppercased_name_reserved,
    NOT_ALLOWED_CHARS,
};

#[test]
fn test_is_name_reserved() {
    assert!(!is_name_reserved(&"hello!".to_string(), true));
    assert!(!is_name_reserved(&"nul hello.txt".to_string(), true));
    assert!(!is_name_reserved(&"com1 hello.txt".to_string(), true));

    assert!(is_name_reserved(&"NUL".to_string(), true));
    assert!(is_name_reserved(&"nul".to_string(), true));
    assert!(is_name_reserved(&"nul.txt".to_string(), true));
    assert!(is_name_reserved(&"nul. hello.txt".to_string(), true));

    assert!(is_name_reserved(&"COM1".to_string(), true));
    assert!(is_name_reserved(&"com1".to_string(), true));
    assert!(is_name_reserved(&"com1.txt".to_string(), true));
    assert!(is_name_reserved(&"com1. this is the world .txt".to_string(), true));
}

#[test]
fn test_is_safe_name() {
    // characters that are not allowed
    assert!(!is_safe_name(&String::from("hell?o.txt."), true, true));
    assert!(!is_safe_name(&String::from("hell*o.txt."), true, true));

    // reserved names
    assert!(!is_safe_name(&String::from("com2.hello.txt."), true, true));
    assert!(!is_safe_name(&String::from("nul.hello.txt."), true, true));
    assert!(!is_safe_name(&String::from("nul."), true, true));
    assert!(is_safe_name(&String::from("nul is nullish.txt"), true, true));

    // a dot at the end
    assert!(is_safe_name(&String::from("hello.txt."), true, true));
    assert!(!is_safe_name(&String::from("hello.txt."), false, true));

    // a space at the end
    assert!(is_safe_name(&String::from("hello.txt "), true, true));
    assert!(!is_safe_name(&String::from("hello.txt "), false, true));
    
    // a space at the beginning
    assert!(is_safe_name(&String::from(" hello.txt"), true, true));
    assert!(is_safe_name(&String::from(" hello.txt"), true, false));
    assert!(!is_safe_name(&String::from(" hello.txt"), false, true));

    // text beyond ASCII
    assert!(is_safe_name(&String::from("한글테스트.txt"), false, true));
}


fn chars(text: &str) -> Vec<char> {
    text.chars().collect()
}

#[test]
fn reserved_names_are_found_whatever_the_case() {
    for name in ["nul", "NUL", "Nul", "nUl"] {
        assert!(is_name_reserved(&name.to_string(), true), "{}", name);
        assert!(is_name_reserved(&name.to_string(), false), "{}", name);
    }
    for name in ["con", "Prn", "aUX", "com1", "Lpt9", "COM\u{b9}", "lpt\u{b3}", "com\u{b2}"] {
        assert!(is_name_reserved(&name.to_string(), true), "{}", name);
        assert!(is_name_reserved(&name.to_string(), false), "{}", name);
    }
}

#[test]
fn a_dot_must_follow_the_device_name() {
    assert!(is_name_reserved(&"nul.txt".to_string(), true));
    assert!(!is_name_reserved(&"nullish.txt".to_string(), true));
    assert!(is_name_reserved(&"nul.".to_string(), true));
    assert!(is_name_reserved(&"lpt1.".to_string(), true));
    assert!(is_name_reserved(&"com0.tar.gz".to_string(), true));
    assert!(!is_name_reserved(&"nul txt".to_string(), true));
    assert!(!is_name_reserved(&"nulx".to_string(), true));
    assert!(!is_name_reserved(&"com10".to_string(), true));
    assert!(!is_name_reserved(&"com1x.txt".to_string(), true));
    assert!(!is_name_reserved(&".nul".to_string(), true));
    assert!(!is_name_reserved(&"xnul.txt".to_string(), true));
}

#[test]
fn without_strict_check_only_whole_names_count() {
    assert!(!is_name_reserved(&"com1.txt".to_string(), false));
    assert!(is_name_reserved(&"com1.txt".to_string(), true));
    assert!(!is_name_reserved(&"nul.txt".to_string(), false));
    assert!(!is_name_reserved(&"nul.".to_string(), false));
    assert!(is_name_reserved(&"com1".to_string(), false));
}

#[test]
fn port_zero_is_reserved_with_strict_check_only() {
    for name in ["COM0", "com0", "LPT0", "lpt0"] {
        assert!(is_name_reserved(&name.to_string(), true), "{}", name);
        assert!(!is_name_reserved(&name.to_string(), false), "{}", name);
    }
    assert!(is_name_reserved(&"lpt0.txt".to_string(), true));
    assert!(!is_name_reserved(&"lpt0.txt".to_string(), false));
}

#[test]
fn other_names_are_not_reserved() {
    for name in ["", "a", "co", "c", "conn", "COM", "LPT", "com", "COM\u{2074}", "aux1", "hello!"] {
        assert!(!is_name_reserved(&name.to_string(), true), "{:?}", name);
        assert!(!is_name_reserved(&name.to_string(), false), "{:?}", name);
    }
}

#[test]
fn short_names_beyond_ascii_are_not_reserved() {
    // one character of three bytes, and three characters of four bytes
    for name in ["\u{d55c}", "ab\u{b9}", "\u{b9}", "\u{d55c}\u{ae00}", "co\u{b9}."] {
        assert!(!is_name_reserved(&name.to_string(), true), "{:?}", name);
        assert!(!is_name_reserved(&name.to_string(), false), "{:?}", name);
    }
}

#[test]
fn uppercased_names_are_compared_as_they_are() {
    assert!(is_uppercased_name_reserved(&chars("NUL"), true));
    assert!(is_uppercased_name_reserved(&chars("NUL"), false));
    assert!(is_uppercased_name_reserved(&chars("NUL.TXT"), true));
    assert!(!is_uppercased_name_reserved(&chars("NUL.TXT"), false));
    assert!(is_uppercased_name_reserved(&chars("COM7.A.B"), true));
    assert!(is_uppercased_name_reserved(&chars("LPT\u{b2}"), false));
    assert!(is_uppercased_name_reserved(&chars("COM0"), true));
    assert!(!is_uppercased_name_reserved(&chars("COM0"), false));
    // the detector does not change the case itself
    assert!(!is_uppercased_name_reserved(&chars("nul"), true));
    assert!(!is_uppercased_name_reserved(&chars("nul.txt"), true));
    assert!(!is_uppercased_name_reserved(&chars("NULL"), true));
    assert!(!is_uppercased_name_reserved(&chars("NULL.TXT"), true));
    assert!(!is_uppercased_name_reserved(&chars("CON1.TXT"), true));
    assert!(!is_uppercased_name_reserved(&chars(""), true));
    assert!(!is_uppercased_name_reserved(&chars("CO"), true));
}

#[test]
fn names_are_read_and_put_in_uppercase() {
    assert_eq!(chars_of("a\u{d55c}."), vec!['a', '\u{d55c}', '.']);
    assert_eq!(chars_of(""), Vec::<char>::new());
    assert_eq!(to_uppercase(&chars("nul.txt")), chars("NUL.TXT"));
    assert_eq!(to_uppercase(&chars("tsch\u{fc}\u{df}")), chars("TSCH\u{dc}SS"));
    assert_eq!(to_uppercase(&chars("Com\u{b9} 1_")), chars("COM\u{b9} 1_"));
    assert_eq!(to_uppercase(&chars("")), chars(""));
}

#[test]
fn each_not_allowed_char_makes_a_name_unsafe() {
    for c in NOT_ALLOWED_CHARS {
        for name in [format!("{}", c), format!("a{}b", c), format!("ab{}", c), format!("{}ab", c)] {
            assert!(!is_safe_name(&name, true, true), "{:?}", name);
            assert!(!is_safe_name(&name, true, false), "{:?}", name);
            assert!(!is_safe_name(&name, false, true), "{:?}", name);
            assert!(!is_safe_name(&name, false, false), "{:?}", name);
        }
    }
}

#[test]
fn the_empty_name_can_be_created_and_is_not_kept() {
    assert!(is_safe_name(&String::new(), true, true));
    assert!(is_safe_name(&String::new(), true, false));
    assert!(!is_safe_name(&String::new(), false, true));
    assert!(!is_safe_name(&String::new(), false, false));
}

#[test]
fn a_space_in_front_counts_with_strict_check_only() {
    assert!(!is_safe_name(&" hello.txt".to_string(), false, true));
    assert!(is_safe_name(&" hello.txt".to_string(), false, false));
    assert!(!is_safe_name(&" ".to_string(), false, false));
    assert!(is_safe_name(&" ".to_string(), true, true));
    assert!(!is_safe_name(&".".to_string(), false, false));
    assert!(is_safe_name(&".".to_string(), true, true));
    assert!(is_safe_name(&"a b.c".to_string(), false, true));
    assert!(is_safe_name(&".a".to_string(), false, true));
}

#[test]
fn the_strictness_of_the_reserved_names_carries_over() {
    assert!(!is_safe_name(&"com0".to_string(), true, true));
    assert!(is_safe_name(&"com0".to_string(), true, false));
    assert!(is_safe_name(&"com0".to_string(), false, false));
    assert!(!is_safe_name(&"nul.txt".to_string(), false, true));
    assert!(is_safe_name(&"nul.txt".to_string(), false, false));
    assert!(!is_safe_name(&"nul".to_string(), false, false));
}

#[test]
fn the_checks_behind_the_detector() {
    let name = chars("hello.txt");
    assert!(is_safe_unless_name_reserved(&name, false, false, true));
    assert!(!is_safe_unless_name_reserved(&name, true, false, true));
    assert!(!is_safe_unless_name_reserved(&name, true, true, false));
    assert!(!is_safe_unless_name_reserved(&chars("hello.txt."), false, false, false));
    assert!(is_safe_unless_name_reserved(&chars("hello.txt."), false, true, true));
    assert!(!is_safe_unless_name_reserved(&chars("hello.txt "), false, false, false));
    assert!(!is_safe_unless_name_reserved(&chars(" hello.txt"), false, false, true));
    assert!(is_safe_unless_name_reserved(&chars(" hello.txt"), false, false, false));
    assert!(!is_safe_unless_name_reserved(&chars("he|lo"), false, true, false));
    assert!(!is_safe_unless_name_reserved(&chars(""), false, false, false));
    assert!(is_safe_unless_name_reserved(&chars(""), false, true, true));
}
