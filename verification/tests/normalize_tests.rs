use dixi_backend::normalize::normalize;

#[test]
fn normalize_lowercases_ascii() {
    assert_eq!(normalize("CASA"), "casa");
    assert_eq!(normalize("Casa"), "casa");
    assert_eq!(normalize("casa"), "casa");
}

#[test]
fn normalize_folds_diacritics() {
    assert_eq!(normalize("cas\u{e3}"), "casa"); // casã
    assert_eq!(normalize("\u{21a}ar\u{103}"), "tara"); // Țară
    assert_eq!(normalize("\u{219}tiin\u{21b}\u{103}"), "stiinta"); // știință
    assert_eq!(normalize("Fran\u{e7}ais"), "francais"); // Français
}

#[test]
fn normalize_keeps_plain_text_unchanged() {
    assert_eq!(normalize("casa 123 - x!"), "casa 123 - x!");
    assert_eq!(normalize(""), "");
}

#[test]
fn normalize_is_idempotent_on_samples() {
    for s in ["Cas\u{e3} \u{218}I", "CASA", "\u{21a}ar\u{103}", "", "abc-123"] {
        let once = normalize(s);
        let twice = normalize(&once);
        assert_eq!(twice, once);
    }
}
