use stim::layout::{centered, fit, status_line};

#[test]
fn text_that_fits_stays() {
    assert_eq!(fit("abcdef", 6), "abcdef");
    assert_eq!(fit("abcdef", 60), "abcdef");
    assert_eq!(fit("", 0), "");
}

#[test]
fn text_that_is_too_long_ends_in_an_ellipsis() {
    assert_eq!(fit("abcdef", 5), "abcd\u{2026}");
    assert_eq!(fit("abcdef", 4), "abc\u{2026}");
    assert_eq!(fit("abcdef", 1), "\u{2026}");
    assert_eq!(fit("abcdef", 0), "\u{2026}");
    assert_eq!(fit("\u{e9}\u{e8}\u{ea}\u{eb}", 3), "\u{e9}\u{e8}\u{2026}");
}

#[test]
fn status_line_keeps_a_margin_of_two() {
    assert_eq!(status_line("left", "R", 10), "left   R");
    assert_eq!(status_line("left", "R", 7), "leftR");
    assert_eq!(status_line("", "R", 4), " R");
    assert_eq!(status_line("", "", 0), " ");
    assert_eq!(status_line("", "", 5), "   ");
}

#[test]
fn status_line_cuts_the_left_half() {
    assert_eq!(status_line("a very long text", "vol", 10), "a ve\u{2026}vol");
    assert_eq!(status_line("abc", "rrrrr", 7), "\u{2026}rrrrr");
    assert_eq!(status_line("abc", "rrrrr", 6), "\u{2026} rrrrr");
    assert_eq!(status_line("abc", "rrrrr", 5), "\u{2026} rrrrr");
    assert_eq!(status_line("abc", "rrrrr", 0), "\u{2026} rrrrr");
    assert_eq!(status_line("abcd", "rr", 8), "abcdrr");
    assert_eq!(status_line("abcde", "rr", 8), "abc\u{2026}rr");
}

#[test]
fn centred_line_has_the_odd_blank_behind() {
    assert_eq!(centered("ab", 7), "  ab   ");
    assert_eq!(centered("ab", 6), "  ab  ");
    assert_eq!(centered("ab", 2), "ab");
    assert_eq!(centered("abcdef", 3), "abcdef");
    assert_eq!(centered("", 3), "   ");
    assert_eq!(centered("\u{2591}\u{2588}", 4), " \u{2591}\u{2588} ");
}
