use libcitadel::error::Error;
use libcitadel::terminal::ansi::{
    check_palette_colors, palette_color_code, palette_colors_query, palette_var_code,
    palette_var_query, parse_color_response, parse_idx_color_pair, parse_var_response, AnsiControl,
};
use libcitadel::terminal::base16::Base16Scheme;
use libcitadel::terminal::base16_shell::Base16Shell;
use libcitadel::terminal::color::{Color, TerminalPalette};

#[test]
fn color_parse_and_print() {
    let c = Color::parse("rgb:ff/80/00").unwrap();
    assert_eq!(c.rgb(), (0xff, 0x80, 0));
    assert_eq!(c.to_string(), "rgb:ff/80/00");
    let wide = Color::parse("rgb:ffff/0000/1234").unwrap();
    assert_eq!(wide.rgb(), (0xffff, 0, 0x1234));
    assert_eq!(wide.to_string(), "rgb:ffff/0000/1234");
    assert_eq!(Color::new(1, 2, 3).to_string(), "rgb:01/02/03");
    assert_eq!(Color::new(0x100, 2, 3).to_string(), "rgb:0100/0002/0003");
}

#[test]
fn color_parse_errors() {
    assert_eq!(Color::parse("ff/80/00"), Err(Error::BadColor));
    assert_eq!(Color::parse("rgb:ff/80"), Err(Error::BadColor));
    assert_eq!(Color::parse("rgb:ff/80/zz"), Err(Error::BadColor));
    assert_eq!(Color::parse("rgb:10000/0/0"), Err(Error::BadColor));
}

#[test]
fn color_print_parse_roundtrip() {
    for c in [Color::new(0, 0, 0), Color::new(0xab, 0xcd, 0xef), Color::new(0xffff, 1, 0x2)] {
        assert_eq!(Color::parse(&c.to_string()).unwrap(), c);
    }
}

#[test]
fn ansi_sequences() {
    assert_eq!(AnsiControl::bold().as_str(), "\x1b[1m");
    assert_eq!(AnsiControl::unbold().as_str(), "\x1b[22m");
    assert_eq!(AnsiControl::clear().as_str(), "\x1b[2J");
    assert_eq!(AnsiControl::goto(3, 14).as_str(), "\x1b[3;14H");
    assert_eq!(AnsiControl::set_window_title("hi").as_str(), "\x1b]0;hi\x1b\\");
    assert_eq!(AnsiControl::window_title_push_stack().as_str(), "\x1b[22;2t");
    assert_eq!(AnsiControl::window_title_pop_stack().as_bytes(), b"\x1b[23;2t");
    assert_eq!(AnsiControl::osc(11).sep().push('?').st().as_str(), "\x1b]11;?\x1b\\");
    assert_eq!(AnsiControl::csi().num(7).push_str("m").as_str(), "\x1b[7m");
}

#[test]
fn palette_codes() {
    let c = Color::new(0x12, 0x34, 0x56);
    assert_eq!(palette_color_code(5, c).as_str(), "\x1b]4;5;rgb:12/34/56\x1b\\");
    assert_eq!(palette_var_code(10, c).as_str(), "\x1b]10;rgb:12/34/56\x1b\\");
    assert_eq!(palette_var_query(11).as_str(), "\x1b]11;?\x1b\\");
    assert_eq!(palette_colors_query(&vec![0, 7]).as_str(), "\x1b]4;0;?;7;?\x1b\\");
    assert_eq!(palette_colors_query(&vec![]).as_str(), "\x1b]4\x1b\\");
}

#[test]
fn palette_responses() {
    assert_eq!(parse_idx_color_pair("3;rgb:01/02/03"), Ok((3, Color::new(1, 2, 3))));
    assert_eq!(parse_idx_color_pair("3"), Err(Error::BadColor));
    let resp = "\x1b]4;0;rgb:0000/1111/2222\x1b\\\x1b]4;7;rgb:aa/bb/cc\x1b\\";
    let parsed = parse_color_response(resp).unwrap();
    assert_eq!(parsed, vec![(0, Color::new(0, 0x1111, 0x2222)), (7, Color::new(0xaa, 0xbb, 0xcc))]);
    assert_eq!(
        check_palette_colors(&parsed, &vec![0, 7]),
        Ok(vec![Color::new(0, 0x1111, 0x2222), Color::new(0xaa, 0xbb, 0xcc)])
    );
    assert_eq!(check_palette_colors(&parsed, &vec![0, 8]), Err(Error::ColorIndex));
    assert_eq!(parse_color_response("").unwrap(), vec![]);
    assert!(parse_color_response("\x1b]4;0;rgb:00/00/00").is_err());
    assert_eq!(parse_var_response("\x1b]11;rgb:10/20/30\x1b\\", 11), Ok(Color::new(0x10, 0x20, 0x30)));
}

#[test]
fn terminal_palette_slots() {
    let mut p = TerminalPalette::default();
    p.set_background(Color::new(1, 1, 1));
    p.set_foreground(Color::new(2, 2, 2));
    p.set_palette_color(21, Color::new(3, 3, 3));
    assert_eq!(p.background(), Color::new(1, 1, 1));
    assert_eq!(p.foreground(), Color::new(2, 2, 2));
    assert_eq!(p.palette_color(21), Color::new(3, 3, 3));
    assert_eq!(p.palette_color(0), Color::new(0, 0, 0));
}

#[test]
fn base16_lookup() {
    let s = Base16Scheme::by_name("default-dark").unwrap();
    assert_eq!(s.name(), "Default Dark");
    assert_eq!(s.slug(), "default-dark");
    assert_eq!(s.category(), Some("Default"));
    assert_eq!(s.terminal_background(), Color::new(0x18, 0x18, 0x18));
    assert_eq!(s.terminal_foreground(), Color::new(0xd8, 0xd8, 0xd8));
    assert_eq!(s.terminal_palette_color(1), Color::new(0xab, 0x46, 0x42));
    assert_eq!(s.terminal_palette_color(15), Color::new(0xf8, 0xf8, 0xf8));
    assert!(Base16Scheme::by_name("no-such-scheme").is_none());
    let names = Base16Scheme::all_names();
    assert!(names.windows(2).all(|w| w[0] < w[1]));
    assert!(names.iter().any(|n| n == "solarized-dark"));
    assert_eq!(names[0], "3024");
    assert_eq!(names.last().map(|s| s.as_str()), Some("zenburn"));
    assert_eq!(names.len(), 125);
    for n in &names {
        assert_eq!(Base16Scheme::by_name(n).unwrap().slug(), n.as_str());
    }
    let all = Base16Scheme::all_schemes();
    assert_eq!(all.len(), names.len());
    assert!(all.windows(2).all(|w| w[0].name() <= w[1].name()));
    assert_eq!(Base16Scheme::category_names().len(), 17);
}

#[test]
fn base16_new_scheme() {
    let v: Vec<u32> = (0..16).map(|i| 0x010203 * i).collect();
    let s = Base16Scheme::new("mine", "Solarized Mine", v);
    assert_eq!(s.category(), Some("Solarized"));
    assert_eq!(s.color(2), Color::new(2, 4, 6));
    let t = Base16Scheme::new("x", "Nothing", vec![0; 16]);
    assert_eq!(t.category(), None);
}

#[test]
fn base16_vim_text() {
    let s = Base16Scheme::by_name("default-dark").unwrap();
    assert_eq!(
        s.vim_file_text(),
        "if !exists('g:colors_name') || g:colors_name != 'default-dark'\n  colorscheme base16-default-dark\nendif\n"
    );
}

#[test]
fn base16_shell_script() {
    let s = Base16Scheme::by_name("default-dark").unwrap();
    let script = Base16Shell::script(&s);
    assert!(script.contains("put_template 0  18/18/18\n"));
    assert!(script.contains("put_template 1  ab/46/42\n"));
    assert!(!script.contains("$color"));
}
