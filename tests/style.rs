use terminal::consts::{OP_BOLD, OP_FAINT, OP_ITALIC, OP_UNDERLINE, OP_SLOW_BLINK, OP_FAST_BLINK, OP_REVERSE, OP_CONCEAL, OP_STRIKETHROUGH, FG_BLACK, FG_RED, FG_GREEN, FG_YELLOW, FG_BLUE, FG_MAGENTA, FG_CYAN, FG_WHITE, FG_GRAY, FG_BRIGHT_RED, FG_BRIGHT_GREEN, FG_BRIGHT_YELLOW, FG_BRIGHT_BLUE, FG_BRIGHT_MAGENTA, FG_BRIGHT_CYAN, FG_BRIGHT_WHITE, BG_BLACK, BG_RED, BG_GREEN, BG_YELLOW, BG_BLUE, BG_MAGENTA, BG_CYAN, BG_WHITE, BG_GRAY, BG_BRIGHT_RED, BG_BRIGHT_GREEN, BG_BRIGHT_YELLOW, BG_BRIGHT_BLUE, BG_BRIGHT_MAGENTA, BG_BRIGHT_CYAN, BG_BRIGHT_WHITE};
use terminal::style::Style;

#[test]
fn multi_style() {
    let mut s = Style::new(format!("test"));
    s.bold().underline().red().bg_green();
    assert_eq!(s.values().to_vec(), vec![OP_BOLD, OP_UNDERLINE, FG_RED, BG_GREEN]);
    assert_eq!(
        format!(
            "\x1b[{};{};{};{}mtest\x1b[0m",
            OP_BOLD, OP_UNDERLINE, FG_RED, BG_GREEN
        ),
        s.to_string()
    );
}

#[test]
fn each_request_appends_its_code() {
    let mut s = Style::new("test".to_string());
    s.bold();
    assert_eq!(s.values().to_vec(), vec![OP_BOLD]);
    assert_eq!(s.values(), &[1]);

    let mut s = Style::new("test".to_string());
    s.faint();
    assert_eq!(s.values().to_vec(), vec![OP_FAINT]);
    assert_eq!(s.values(), &[2]);

    let mut s = Style::new("test".to_string());
    s.italic();
    assert_eq!(s.values().to_vec(), vec![OP_ITALIC]);
    assert_eq!(s.values(), &[3]);

    let mut s = Style::new("test".to_string());
    s.underline();
    assert_eq!(s.values().to_vec(), vec![OP_UNDERLINE]);
    assert_eq!(s.values(), &[4]);

    let mut s = Style::new("test".to_string());
    s.slow_blink();
    assert_eq!(s.values().to_vec(), vec![OP_SLOW_BLINK]);
    assert_eq!(s.values(), &[5]);

    let mut s = Style::new("test".to_string());
    s.fast_blink();
    assert_eq!(s.values().to_vec(), vec![OP_FAST_BLINK]);
    assert_eq!(s.values(), &[6]);

    let mut s = Style::new("test".to_string());
    s.reverse();
    assert_eq!(s.values().to_vec(), vec![OP_REVERSE]);
    assert_eq!(s.values(), &[7]);

    let mut s = Style::new("test".to_string());
    s.conceal();
    assert_eq!(s.values().to_vec(), vec![OP_CONCEAL]);
    assert_eq!(s.values(), &[8]);

    let mut s = Style::new("test".to_string());
    s.strikethrough();
    assert_eq!(s.values().to_vec(), vec![OP_STRIKETHROUGH]);
    assert_eq!(s.values(), &[9]);

    let mut s = Style::new("test".to_string());
    s.black();
    assert_eq!(s.values().to_vec(), vec![FG_BLACK]);
    assert_eq!(s.values(), &[30]);

    let mut s = Style::new("test".to_string());
    s.red();
    assert_eq!(s.values().to_vec(), vec![FG_RED]);
    assert_eq!(s.values(), &[31]);

    let mut s = Style::new("test".to_string());
    s.green();
    assert_eq!(s.values().to_vec(), vec![FG_GREEN]);
    assert_eq!(s.values(), &[32]);

    let mut s = Style::new("test".to_string());
    s.yellow();
    assert_eq!(s.values().to_vec(), vec![FG_YELLOW]);
    assert_eq!(s.values(), &[33]);

    let mut s = Style::new("test".to_string());
    s.blue();
    assert_eq!(s.values().to_vec(), vec![FG_BLUE]);
    assert_eq!(s.values(), &[34]);

    let mut s = Style::new("test".to_string());
    s.magenta();
    assert_eq!(s.values().to_vec(), vec![FG_MAGENTA]);
    assert_eq!(s.values(), &[35]);

    let mut s = Style::new("test".to_string());
    s.cyan();
    assert_eq!(s.values().to_vec(), vec![FG_CYAN]);
    assert_eq!(s.values(), &[36]);

    let mut s = Style::new("test".to_string());
    s.white();
    assert_eq!(s.values().to_vec(), vec![FG_WHITE]);
    assert_eq!(s.values(), &[37]);

    let mut s = Style::new("test".to_string());
    s.gray();
    assert_eq!(s.values().to_vec(), vec![FG_GRAY]);
    assert_eq!(s.values(), &[90]);

    let mut s = Style::new("test".to_string());
    s.bright_red();
    assert_eq!(s.values().to_vec(), vec![FG_BRIGHT_RED]);
    assert_eq!(s.values(), &[91]);

    let mut s = Style::new("test".to_string());
    s.bright_green();
    assert_eq!(s.values().to_vec(), vec![FG_BRIGHT_GREEN]);
    assert_eq!(s.values(), &[92]);

    let mut s = Style::new("test".to_string());
    s.bright_yellow();
    assert_eq!(s.values().to_vec(), vec![FG_BRIGHT_YELLOW]);
    assert_eq!(s.values(), &[93]);

    let mut s = Style::new("test".to_string());
    s.bright_blue();
    assert_eq!(s.values().to_vec(), vec![FG_BRIGHT_BLUE]);
    assert_eq!(s.values(), &[94]);

    let mut s = Style::new("test".to_string());
    s.bright_magenta();
    assert_eq!(s.values().to_vec(), vec![FG_BRIGHT_MAGENTA]);
    assert_eq!(s.values(), &[95]);

    let mut s = Style::new("test".to_string());
    s.bright_cyan();
    assert_eq!(s.values().to_vec(), vec![FG_BRIGHT_CYAN]);
    assert_eq!(s.values(), &[96]);

    let mut s = Style::new("test".to_string());
    s.bright_white();
    assert_eq!(s.values().to_vec(), vec![FG_BRIGHT_WHITE]);
    assert_eq!(s.values(), &[97]);

    let mut s = Style::new("test".to_string());
    s.bg_black();
    assert_eq!(s.values().to_vec(), vec![BG_BLACK]);
    assert_eq!(s.values(), &[40]);

    let mut s = Style::new("test".to_string());
    s.bg_red();
    assert_eq!(s.values().to_vec(), vec![BG_RED]);
    assert_eq!(s.values(), &[41]);

    let mut s = Style::new("test".to_string());
    s.bg_green();
    assert_eq!(s.values().to_vec(), vec![BG_GREEN]);
    assert_eq!(s.values(), &[42]);

    let mut s = Style::new("test".to_string());
    s.bg_yellow();
    assert_eq!(s.values().to_vec(), vec![BG_YELLOW]);
    assert_eq!(s.values(), &[43]);

    let mut s = Style::new("test".to_string());
    s.bg_blue();
    assert_eq!(s.values().to_vec(), vec![BG_BLUE]);
    assert_eq!(s.values(), &[44]);

    let mut s = Style::new("test".to_string());
    s.bg_magenta();
    assert_eq!(s.values().to_vec(), vec![BG_MAGENTA]);
    assert_eq!(s.values(), &[45]);

    let mut s = Style::new("test".to_string());
    s.bg_cyan();
    assert_eq!(s.values().to_vec(), vec![BG_CYAN]);
    assert_eq!(s.values(), &[46]);

    let mut s = Style::new("test".to_string());
    s.bg_white();
    assert_eq!(s.values().to_vec(), vec![BG_WHITE]);
    assert_eq!(s.values(), &[47]);

    let mut s = Style::new("test".to_string());
    s.bg_gray();
    assert_eq!(s.values().to_vec(), vec![BG_GRAY]);
    assert_eq!(s.values(), &[100]);

    let mut s = Style::new("test".to_string());
    s.bg_bright_red();
    assert_eq!(s.values().to_vec(), vec![BG_BRIGHT_RED]);
    assert_eq!(s.values(), &[101]);

    let mut s = Style::new("test".to_string());
    s.bg_bright_green();
    assert_eq!(s.values().to_vec(), vec![BG_BRIGHT_GREEN]);
    assert_eq!(s.values(), &[102]);

    let mut s = Style::new("test".to_string());
    s.bg_bright_yellow();
    assert_eq!(s.values().to_vec(), vec![BG_BRIGHT_YELLOW]);
    assert_eq!(s.values(), &[103]);

    let mut s = Style::new("test".to_string());
    s.bg_bright_blue();
    assert_eq!(s.values().to_vec(), vec![BG_BRIGHT_BLUE]);
    assert_eq!(s.values(), &[104]);

    let mut s = Style::new("test".to_string());
    s.bg_bright_magenta();
    assert_eq!(s.values().to_vec(), vec![BG_BRIGHT_MAGENTA]);
    assert_eq!(s.values(), &[105]);

    let mut s = Style::new("test".to_string());
    s.bg_bright_cyan();
    assert_eq!(s.values().to_vec(), vec![BG_BRIGHT_CYAN]);
    assert_eq!(s.values(), &[106]);

    let mut s = Style::new("test".to_string());
    s.bg_bright_white();
    assert_eq!(s.values().to_vec(), vec![BG_BRIGHT_WHITE]);
    assert_eq!(s.values(), &[107]);
}

#[test]
fn new_style_has_no_codes() {
    let s = Style::new("test".to_string());
    assert!(s.values().is_empty());
    assert_eq!(s.text(), "test");
}

#[test]
fn chain_appends_to_the_same_style() {
    let mut s = Style::new("T".to_string());
    s.bold().underline();
    assert_eq!(s.values().to_vec(), vec![OP_BOLD, OP_UNDERLINE]);
    assert_eq!(s.text(), "T");
}

#[test]
fn hello_world_black_underline() {
    let s = Style::new(format!("{}, {}!", "Hello", "world"))
        .black()
        .underline()
        .to_string();
    assert_eq!(s, "\x1b[30;4mHello, world!\x1b[0m");
}

#[test]
fn no_requests_render_bare_prefix() {
    let s = Style::new("test".to_string());
    assert_eq!(s.to_string(), "\x1b[mtest\x1b[0m");
}

#[test]
fn bold_underline_red_bg_green() {
    let mut s = Style::new("test".to_string());
    s.bold().underline().red().bg_green();
    assert_eq!(s.to_string(), "\x1b[1;4;31;42mtest\x1b[0m");
}

#[test]
fn rendering_twice_gives_the_same_text() {
    let mut s = Style::new("again".to_string());
    s.italic().bg_bright_cyan();
    let first = s.to_string();
    let second = s.to_string();
    assert_eq!(first, second);
    assert_eq!(first, "\x1b[3;106magain\x1b[0m");
    assert_eq!(s.values().to_vec(), vec![OP_ITALIC, BG_BRIGHT_CYAN]);
}

#[test]
fn repeated_request_is_not_merged() {
    let mut s = Style::new("x".to_string());
    s.red();
    assert_eq!(s.values().len(), 1);
    s.red();
    assert_eq!(s.values().len(), 2);
    assert_eq!(s.values().to_vec(), vec![FG_RED, FG_RED]);
    assert_eq!(s.to_string(), "\x1b[31;31mx\x1b[0m");
}

#[test]
fn conflicting_colors_are_all_kept() {
    let mut s = Style::new("c".to_string());
    s.red().blue().gray().bg_gray();
    assert_eq!(s.to_string(), "\x1b[31;34;90;100mc\x1b[0m");
}

#[test]
fn text_is_passed_through_unchanged() {
    let mut s = Style::new("a;b\x1b[0m ü".to_string());
    s.strikethrough();
    assert_eq!(s.to_string(), "\x1b[9ma;b\x1b[0m ü\x1b[0m");
    let e = Style::new(String::new());
    assert_eq!(e.to_string(), "\x1b[m\x1b[0m");
}
