use rkiauh::text::{
    chars_of, find_char_in, is_whitespace_char, join_with, lines_of, trim_chars,
    words_of,
};

fn collect(v: Vec<Vec<char>>) -> Vec<String> {
    v.into_iter().map(|l| l.into_iter().collect()).collect()
}

const SAMPLES: &[&str] = &[
    "",
    "a",
    "a\n",
    "a\nb",
    "a\nb\n",
    "\n",
    "\n\n",
    "a\r\nb\r\n",
    "a\r",
    "a\r\r\n",
    "\r\n",
    "  x  y\t z \n w",
    " \u{a0}lead\u{2003}trail\u{3000}",
    "key = value # not a comment",
    "\u{85}next\u{2028}line\u{2029}",
];

#[test]
fn lines_follow_std() {
    for s in SAMPLES {
        let expected: Vec<String> = s.lines().map(|l| l.to_string()).collect();
        assert_eq!(collect(lines_of(&chars_of(s))), expected, "input {:?}", s);
    }
}

#[test]
fn words_follow_std() {
    for s in SAMPLES {
        let expected: Vec<String> = s.split_whitespace().map(|l| l.to_string()).collect();
        assert_eq!(collect(words_of(&chars_of(s))), expected, "input {:?}", s);
    }
}

#[test]
fn trim_follows_std() {
    for s in SAMPLES {
        let t: String = trim_chars(&chars_of(s)).into_iter().collect();
        assert_eq!(t, s.trim(), "input {:?}", s);
    }
}

#[test]
fn whitespace_follows_std() {
    for u in 0u32..=0x10ffff {
        if let Some(c) = char::from_u32(u) {
            assert_eq!(is_whitespace_char(c), c.is_whitespace(), "char {:#x}", u);
        }
    }
}

#[test]
fn find_char_gives_first_position() {
    assert_eq!(find_char_in(&chars_of("a=b=c"), '='), Some(1));
    assert_eq!(find_char_in(&chars_of("abc"), '='), None);
    assert_eq!(find_char_in(&chars_of(""), '='), None);
}

#[test]
fn join_puts_separators_between() {
    let parts = vec![chars_of("a"), chars_of(""), chars_of("bc")];
    assert_eq!(join_with(&parts, ' ').into_iter().collect::<String>(), "a  bc");
    assert!(join_with(&Vec::new(), ' ').is_empty());
}
