use vcs_toolkit::ident::{collapse_keywords, expand_keywords, find_expanded_marker_end, is_bare_marker_at};

#[test]
fn expanded_markers_collapse() {
    assert_eq!(
        collapse_keywords(b"$Id: 2188d1cdee2b93a80084b61af431a49d21bc7cc0$"),
        b"$Id$"
    );
    assert_eq!(collapse_keywords(b"x $Id: abc$ y $Id: d$ z"), b"x $Id$ y $Id$ z");
    assert_eq!(collapse_keywords(b"$Id:$"), b"$Id$");
    assert_eq!(collapse_keywords(b"$Id: $"), b"$Id$");
}

#[test]
fn content_without_expanded_markers_is_kept() {
    assert_eq!(collapse_keywords(b"$Id$"), b"$Id$");
    assert_eq!(collapse_keywords(b"plain $ text"), b"plain $ text");
    assert_eq!(collapse_keywords(b""), b"");
    assert_eq!(collapse_keywords(b"$id: abc$"), b"$id: abc$");
}

#[test]
fn a_marker_does_not_span_lines() {
    assert_eq!(collapse_keywords(b"$Id: abc\n$"), b"$Id: abc\n$");
    assert_eq!(collapse_keywords(b"$Id: abc"), b"$Id: abc");
    assert_eq!(collapse_keywords(b"$Id: a\n$Id: b$"), b"$Id: a\n$Id$");
}

#[test]
fn markers_are_found_from_left_to_right() {
    assert_eq!(collapse_keywords(b"$Id: $Id: x$"), b"$Id$Id: x$");
    assert_eq!(collapse_keywords(b"$$Id: x$$"), b"$$Id$$");
}

#[test]
fn bare_markers_expand() {
    assert_eq!(expand_keywords(b"$Id$", b"abc"), b"$Id: abc$");
    assert_eq!(expand_keywords(b"a$Id$b$Id$", b"1"), b"a$Id: 1$b$Id: 1$");
    assert_eq!(expand_keywords(b"$Id$", b""), b"$Id: $");
}

#[test]
fn content_without_bare_markers_is_not_expanded() {
    assert_eq!(expand_keywords(b"$Id: x$", b"abc"), b"$Id: x$");
    assert_eq!(expand_keywords(b"$Id", b"abc"), b"$Id");
    assert_eq!(expand_keywords(b"", b"abc"), b"");
    assert_eq!(expand_keywords(b"$id$", b"abc"), b"$id$");
}

#[test]
fn collapse_undoes_expand() {
    let expanded = expand_keywords(b"a\nb\n$Id$", b"2188d1cdee2b93a80084b61af431a49d21bc7cc0");
    assert_eq!(expanded, b"a\nb\n$Id: 2188d1cdee2b93a80084b61af431a49d21bc7cc0$");
    assert_eq!(collapse_keywords(&expanded), b"a\nb\n$Id$");
}

#[test]
fn markers_are_recognized_in_place() {
    assert!(is_bare_marker_at(b"ab$Id$", 2));
    assert!(!is_bare_marker_at(b"ab$Id$", 1));
    assert!(!is_bare_marker_at(b"$Id", 0));
    assert!(!is_bare_marker_at(b"$Id$", 4));
    assert_eq!(find_expanded_marker_end(b"ab$Id: x$c", 2), Some(9));
    assert_eq!(find_expanded_marker_end(b"ab$Id: x$c", 0), None);
    assert_eq!(find_expanded_marker_end(b"$Id: x\n$", 0), None);
    assert_eq!(find_expanded_marker_end(b"$Id:", 0), None);
    assert_eq!(find_expanded_marker_end(b"$Id:$", 0), Some(5));
    assert_eq!(find_expanded_marker_end(b"$Id:$", 9), None);
}
