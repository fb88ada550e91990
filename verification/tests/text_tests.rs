use lexichat::text::{str_contains, strip_mathjax_for_llm};

#[test]
fn strips_inline_math() {
    assert_eq!(strip_mathjax_for_llm("$x_1$ is a cat"), "x_1 is a cat");
}

#[test]
fn strips_display_math() {
    assert_eq!(strip_mathjax_for_llm("$$a+b$$"), "a+b");
}

#[test]
fn strips_mixed_math() {
    assert_eq!(strip_mathjax_for_llm("see $$x$$ and $y$ here"), "see x and y here");
}

#[test]
fn display_math_spans_newlines() {
    assert_eq!(strip_mathjax_for_llm("$$a\nb$$"), "a\nb");
}

#[test]
fn display_math_is_non_greedy() {
    assert_eq!(strip_mathjax_for_llm("$$a$$ and $$b$$"), "a and b");
}

#[test]
fn unclosed_display_math_stays() {
    assert_eq!(strip_mathjax_for_llm("$$abc"), "$$abc");
}

#[test]
fn adjacent_dollars_are_not_inline_math() {
    assert_eq!(strip_mathjax_for_llm("a$$b"), "a$$b");
}

#[test]
fn inline_math_spans_words() {
    // A single `$...$` pair takes everything between the dollars.
    assert_eq!(strip_mathjax_for_llm("$5 and $6"), "5 and 6");
}

#[test]
fn display_math_keeps_single_dollar_inside() {
    assert_eq!(strip_mathjax_for_llm("$$x$ y$$z"), "x$ yz");
}

#[test]
fn trims_surrounding_whitespace() {
    assert_eq!(strip_mathjax_for_llm("  hi  "), "hi");
    assert_eq!(strip_mathjax_for_llm("\t$x$\n"), "x");
}

#[test]
fn empty_text_stays_empty() {
    assert_eq!(strip_mathjax_for_llm(""), "");
}

#[test]
fn contains_finds_substrings() {
    assert!(str_contains("item not found here", "not found"));
    assert!(str_contains("abc", ""));
    assert!(str_contains("abc", "abc"));
    assert!(!str_contains("abc", "abcd"));
    assert!(!str_contains("Forbidden", "forbidden"));
}
