use wat::style::{render, Styled, Tint};

fn styled(text: &str, tint: Tint) -> Styled {
    Styled { text: text.to_string(), tint }
}

// One test only: the colouring override of `colored` is shared by the whole
// process.
#[test]
fn rendering_follows_the_colouring_switch() {
    colored::control::set_override(true);
    assert_eq!(render(&styled("x", Tint::Red)), "\u{1b}[31mx\u{1b}[0m");
    assert_eq!(render(&styled("x", Tint::Green)), "\u{1b}[32mx\u{1b}[0m");
    assert_eq!(render(&styled("x", Tint::Yellow)), "\u{1b}[33mx\u{1b}[0m");
    assert_eq!(render(&styled("x", Tint::Blue)), "\u{1b}[34mx\u{1b}[0m");
    assert_eq!(render(&styled("x", Tint::Purple)), "\u{1b}[35mx\u{1b}[0m");
    assert_eq!(render(&styled("x", Tint::Bold)), "\u{1b}[1mx\u{1b}[0m");
    assert_eq!(render(&styled("x", Tint::Plain)), "x");
    let orange = render(&styled("x", Tint::Orange));
    assert!(
        orange == "\u{1b}[38;2;255;127;0mx\u{1b}[0m" || orange == "\u{1b}[33mx\u{1b}[0m",
        "{:?}",
        orange
    );
    assert_eq!(
        render(&styled("a\u{1b}[0mb", Tint::Red)),
        "\u{1b}[31ma\u{1b}[0m\u{1b}[31mb\u{1b}[0m"
    );
    colored::control::set_override(false);
    assert_eq!(render(&styled("x", Tint::Red)), "x");
    assert_eq!(render(&styled("x", Tint::Orange)), "x");
    assert_eq!(render(&styled("x", Tint::Bold)), "x");
    colored::control::unset_override();
}
