use std::cmp::Ordering;

use discord_bot::case_insensitive::{CaseInsensitive, CaseInsensitiveString};

#[test]
fn test_should_be_equal() {
    assert_eq!(
        CaseInsensitiveString("woRLD".into()),
        CaseInsensitiveString("World".into())
    );
}

#[test]
fn differing_letters_are_not_equal() {
    assert_ne!(
        CaseInsensitiveString("world".into()),
        CaseInsensitiveString("words".into())
    );
}

#[test]
fn orders_by_the_lower_case_forms() {
    assert_eq!(CaseInsensitive(b"abc").cmp(&CaseInsensitive(b"ABD")), Ordering::Less);
    assert_eq!(CaseInsensitive(b"ABD").cmp(&CaseInsensitive(b"abc")), Ordering::Greater);
    assert_eq!(CaseInsensitive(b"Hello").cmp(&CaseInsensitive(b"hELLO")), Ordering::Equal);
    // `Z` comes before `a` in ASCII, but `z` comes after it.
    assert_eq!(CaseInsensitive(b"Z").cmp(&CaseInsensitive(b"a")), Ordering::Greater);
}

#[test]
fn a_beginning_comes_before_what_it_begins() {
    assert_eq!(CaseInsensitive(b"new").cmp(&CaseInsensitive(b"NEW-release")), Ordering::Less);
    assert_eq!(CaseInsensitive(b"NEW-release").cmp(&CaseInsensitive(b"new")), Ordering::Greater);
    assert_eq!(CaseInsensitive(b"").cmp(&CaseInsensitive(b"")), Ordering::Equal);
    assert_eq!(CaseInsensitive(b"").cmp(&CaseInsensitive(b"a")), Ordering::Less);
}

#[test]
fn only_ascii_letters_are_folded() {
    // `[` follows `Z` and `{` follows `z`: neither is a letter.
    assert_ne!(CaseInsensitive(b"["), CaseInsensitive(b"{"));
    assert_eq!(CaseInsensitive(b"@"), CaseInsensitive(b"@"));
    assert_ne!(CaseInsensitive(b"@"), CaseInsensitive(b"`"));
    // The two forms of a non-ASCII letter differ.
    assert_ne!(
        CaseInsensitiveString("É".into()),
        CaseInsensitiveString("é".into())
    );
}

#[test]
fn agrees_with_comparing_lower_cased_strings() {
    let words = ["", "a", "A", "ab", "Ab", "aB", "b", "B", "new-release", "NEW", "Zebra", "apple", "_x", "[", "{"];
    for a in words {
        for b in words {
            let expected = a.to_ascii_lowercase().cmp(&b.to_ascii_lowercase());
            let got = CaseInsensitiveString(a.into()).cmp(&CaseInsensitiveString(b.into()));
            assert_eq!(got, expected, "{a:?} against {b:?}");
            assert_eq!(
                CaseInsensitiveString(a.into()).partial_cmp(&CaseInsensitiveString(b.into())),
                Some(expected)
            );
            assert_eq!(
                CaseInsensitiveString(a.into()) == CaseInsensitiveString(b.into()),
                expected == Ordering::Equal
            );
        }
    }
}

#[test]
fn can_be_found_in_a_sorted_list() {
    let mut entries = vec![
        (CaseInsensitiveString("Hello".into()), 127),
        (CaseInsensitiveString("everyBODY".into()), 32),
    ];
    entries.sort_by(|a, b| a.0.cmp(&b.0));
    let find = |key: &str| {
        let key = CaseInsensitiveString(key.into());
        entries
            .binary_search_by(|entry| entry.0.cmp(&key))
            .ok()
            .map(|at| entries[at].1)
    };
    assert_eq!(find("heLLO"), Some(127));
    assert_eq!(find("EVERYbody"), Some(32));
    assert_eq!(find("nobody"), None);
}
