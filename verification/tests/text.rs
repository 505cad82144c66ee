use manga_epub::text::{is_blank, last_segment, second_last_segment_of, trim, trim_end_matches_char};

#[test]
fn trim_matches_std() {
    for s in ["", "  ", " a ", "\t\nOne Piece \u{3000}", "x", "\u{a0}y\u{2009}"] {
        assert_eq!(trim(s), s.trim());
        assert_eq!(is_blank(s), s.trim().is_empty());
    }
}

#[test]
fn trim_end_matches_slashes() {
    for s in ["", "/", "a/b//", "https://x.fr/oeuvre/kingdom/", "abc"] {
        assert_eq!(trim_end_matches_char(s, '/'), s.trim_end_matches('/'));
    }
}

#[test]
fn last_segment_matches_rsplitn() {
    for s in ["", "a", "a/b", "https://x.fr/oeuvre/kingdom", "x/"] {
        assert_eq!(last_segment(s), s.rsplitn(2, '/').next().unwrap());
    }
}

#[test]
fn second_last_segment_matches_split() {
    for s in ["", "a", "a/b", "https://sushiscan.fr/catalogue/kingdom/", "/x", "a/b/c"] {
        let mut it = s.split('/');
        it.next_back();
        let expected = it.next_back().unwrap_or("");
        assert_eq!(second_last_segment_of(s), expected);
    }
}
