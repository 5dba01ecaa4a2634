use mirror_manager::text::{
    char_is_white_space, chars_of, range_has_infix, range_has_prefix, str_equal, str_less,
    trim_bounds,
};

#[test]
fn white_space_matches_std() {
    for c in ['\t', '\n', '\u{b}', '\u{c}', '\r', ' ', '\u{85}', '\u{a0}', '\u{1680}', '\u{2000}', '\u{200a}', '\u{2028}', '\u{2029}', '\u{202f}', '\u{205f}', '\u{3000}', 'a', '\u{200b}', '\u{feff}', '0'] {
        assert_eq!(char_is_white_space(c), c.is_whitespace(), "{c:?}");
    }
}

#[test]
fn trim_matches_std() {
    for s in ["", "   ", " a ", "\u{3000}x y\t", "abc", "\n\r"] {
        let v = chars_of(s);
        let (lo, hi) = trim_bounds(&v);
        let got: String = v[lo..hi].iter().collect();
        assert_eq!(got, s.trim());
    }
}

#[test]
fn prefix_and_infix() {
    let v = chars_of("rsync://host");
    assert!(range_has_prefix(&v, 0, v.len(), &chars_of("rsync://")));
    assert!(!range_has_prefix(&v, 1, v.len(), &chars_of("rsync")));
    assert!(range_has_infix(&v, 0, v.len(), &chars_of("://")));
    assert!(range_has_infix(&v, 0, v.len(), &chars_of("host")));
    assert!(!range_has_infix(&v, 0, 5, &chars_of("host")));
    assert!(range_has_infix(&v, 0, v.len(), &chars_of("")));
}

#[test]
fn string_order_matches_std() {
    let words = ["", "a", "ab", "b", "é", "z", "Z", "aa"];
    for a in words {
        for b in words {
            assert_eq!(str_less(a, b), a < b, "{a:?} {b:?}");
            assert_eq!(str_equal(a, b), a == b);
        }
    }
}
