use swear_jar::pattern::{count_matches, PatternError, SwearPattern};

fn pattern(s: &str) -> SwearPattern {
    SwearPattern::new(s.to_string()).unwrap()
}

#[test]
fn valid_regex_keeps_its_source() {
    let p = pattern("fo+");
    assert_eq!(p.as_str(), "fo+");
    assert_eq!(p.duplicate().as_str(), "fo+");
}

#[test]
fn invalid_regex_is_rejected() {
    assert!(matches!(SwearPattern::new("(".to_string()), Err(PatternError::Rejected)));
    assert!(matches!(SwearPattern::new("a[".to_string()), Err(PatternError::Rejected)));
}

#[test]
fn anchored_word_trims_and_anchors() {
    let p = SwearPattern::anchored_word("  heck \n").unwrap();
    assert_eq!(p.as_str(), "^heck$");
    let q = SwearPattern::anchored_word("(").unwrap();
    assert_eq!(q.as_str(), "^\\($");
}

#[test]
fn anchored_word_escapes_meta_characters() {
    let p = SwearPattern::anchored_word(" f*ck ").unwrap();
    assert_eq!(p.as_str(), "^f\\*ck$");
    let v = vec![p];
    assert_eq!(count_matches(&v, "f*ck"), 1);
    assert_eq!(count_matches(&v, "ffck"), 0);
    assert_eq!(count_matches(&v, "fck"), 0);
    let q = SwearPattern::anchored_word("a.b-c").unwrap();
    assert_eq!(q.as_str(), "^a\\.b\\-c$");
}

#[test]
fn anchored_word_matches_whole_text_only() {
    let v = vec![SwearPattern::anchored_word("heck").unwrap()];
    assert_eq!(count_matches(&v, "heck"), 1);
    assert_eq!(count_matches(&v, "oh heck"), 0);
}

#[test]
fn count_matches_counts_each_matching_pattern_once() {
    let v = vec![pattern("fo+"), pattern("bar"), pattern("o")];
    assert_eq!(count_matches(&v, "foo foo baz"), 2);
    assert_eq!(count_matches(&v, "nothing here"), 1);
    assert_eq!(count_matches(&v, "xyz"), 0);
    assert_eq!(count_matches(&Vec::new(), "foo"), 0);
}

#[test]
fn list_from_text_reads_words_in_order() {
    let v = SwearPattern::list_from_text("  heck\n darn\tdang+ ").unwrap();
    let sources: Vec<&str> = v.iter().map(|p| p.as_str()).collect();
    assert_eq!(sources, vec!["heck", "darn", "dang+"]);
}

#[test]
fn list_from_text_of_empty_text_is_empty() {
    assert_eq!(SwearPattern::list_from_text(" \n ").unwrap().len(), 0);
}

#[test]
fn list_from_text_reports_first_invalid_word() {
    assert_eq!(SwearPattern::list_from_text("ok ( [").map(|v| v.len()), Err(1));
    assert_eq!(SwearPattern::list_from_text("a b c(").map(|v| v.len()), Err(2));
}
