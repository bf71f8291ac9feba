use xnav::par::{
    catalog_flux, contains_chars, is_blank, par_key, parse_par_line, same_chars, split_fields,
    split_words, ParKey,
};

fn chars(s: &str) -> Vec<char> {
    s.chars().collect()
}

fn strings(v: Vec<Vec<char>>) -> Vec<String> {
    v.into_iter().map(|w| w.into_iter().collect()).collect()
}

#[test]
fn words_split_on_runs_of_blanks() {
    let w = strings(split_words(&chars("  RAJ \t 19:39:38.56  1  ")));
    assert_eq!(w, vec!["RAJ", "19:39:38.56", "1"]);
}

#[test]
fn words_of_blank_line_are_empty() {
    assert!(split_words(&chars("")).is_empty());
    assert!(split_words(&chars(" \t\r\n")).is_empty());
}

#[test]
fn words_follow_unicode_white_space() {
    let w = strings(split_words(&chars("F0\u{a0}641.9\u{3000}x")));
    assert_eq!(w, vec!["F0", "641.9", "x"]);
    assert!(is_blank('\u{2009}'));
    assert!(!is_blank('_'));
    assert!(!is_blank('\u{200b}'));
}

#[test]
fn keys_are_recognised() {
    assert_eq!(par_key(&chars("PSR")), Some(ParKey::Name));
    assert_eq!(par_key(&chars("PSRJ")), Some(ParKey::Name));
    assert_eq!(par_key(&chars("RAJ")), Some(ParKey::RightAscension));
    assert_eq!(par_key(&chars("DECJ")), Some(ParKey::Declination));
    assert_eq!(par_key(&chars("F0")), Some(ParKey::Frequency));
    assert_eq!(par_key(&chars("P0")), Some(ParKey::Period));
    assert_eq!(par_key(&chars("F1")), None);
    assert_eq!(par_key(&chars("psr")), None);
    assert_eq!(par_key(&chars("PSRJX")), None);
}

#[test]
fn par_line_gives_key_and_value() {
    let r = parse_par_line(&chars("PSRJ   J1939+2134   extra"));
    assert_eq!(r, Some((ParKey::Name, chars("J1939+2134"))));
    let r = parse_par_line(&chars("DECJ +21:34:59.12 1 0.0001"));
    assert_eq!(r, Some((ParKey::Declination, chars("+21:34:59.12"))));
}

#[test]
fn par_line_skips_comments_short_and_unknown_lines() {
    assert_eq!(parse_par_line(&chars("# PSR J0437-4715")), None);
    assert_eq!(parse_par_line(&chars("   ")), None);
    assert_eq!(parse_par_line(&chars("PSR")), None);
    assert_eq!(parse_par_line(&chars("DM 71.0")), None);
    assert_eq!(parse_par_line(&chars("")), None);
}

#[test]
fn fields_split_at_every_colon() {
    assert_eq!(strings(split_fields(&chars("19:39:38.56"))), vec!["19", "39", "38.56"]);
    assert_eq!(strings(split_fields(&chars("-47:15:09"))), vec!["-47", "15", "09"]);
    assert_eq!(strings(split_fields(&chars("a::b:"))), vec!["a", "", "b", ""]);
    assert_eq!(strings(split_fields(&chars(""))), vec![""]);
    assert_eq!(strings(split_fields(&chars("12.5"))), vec!["12.5"]);
}

#[test]
fn char_comparison_and_search() {
    assert!(same_chars(&chars("abc"), &chars("abc")));
    assert!(!same_chars(&chars("abc"), &chars("abd")));
    assert!(!same_chars(&chars("ab"), &chars("abc")));
    assert!(contains_chars(&chars("B1937+21"), &chars("1937")));
    assert!(contains_chars(&chars("1937"), &chars("1937")));
    assert!(!contains_chars(&chars("193"), &chars("1937")));
    assert!(contains_chars(&chars("x"), &chars("")));
}

#[test]
fn catalog_flux_by_name() {
    assert_eq!(catalog_flux(&chars("PSR B1937+21")), 5);
    assert_eq!(catalog_flux(&chars("J0437-4715")), 8);
    assert_eq!(catalog_flux(&chars("J2124-3358")), 1);
    assert_eq!(catalog_flux(&chars("")), 1);
    // the first rule wins when both numbers occur
    assert_eq!(catalog_flux(&chars("0437+1937")), 5);
}
