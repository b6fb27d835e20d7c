use mmterm::config::{
    default_detect_urls, default_scrollback_lines, default_status_bar_right, parse_hex, ColorsConfig, StatusBarConfig,
    TerminalConfig,
};
use mmterm::grid::Color;

#[test]
fn parse_hex_rrggbb() {
    let c = parse_hex("#ff8800");
    assert_eq!(c.r, 0xff);
    assert_eq!(c.g, 0x88);
    assert_eq!(c.b, 0x00);
}

#[test]
fn parse_hex_without_hash() {
    let c = parse_hex("1a2b3c");
    assert_eq!(c.r, 0x1a);
    assert_eq!(c.g, 0x2b);
    assert_eq!(c.b, 0x3c);
}

#[test]
fn parse_hex_invalid_returns_black() {
    let c = parse_hex("zzzzzz");
    assert_eq!(c.r, 0);
    assert_eq!(c.g, 0);
    assert_eq!(c.b, 0);
}

#[test]
fn default_detect_urls_value() {
    assert!(default_detect_urls());
}

#[test]
fn default_scrollback_lines_value() {
    assert_eq!(default_scrollback_lines(), 10_000);
}

#[test]
fn terminal_config_default_scrollback_is_ten_thousand() {
    let tc = TerminalConfig::default();
    assert_eq!(tc.scrollback_lines, 10_000);
}

#[test]
fn default_status_bar_right_returns_pwd_token() {
    assert_eq!(default_status_bar_right(), "%pwd");
}

#[test]
fn status_bar_config_default_has_pwd_token() {
    let cfg = StatusBarConfig::default();
    assert_eq!(cfg.right, "%pwd");
}

#[test]
fn parse_hex_edge_cases() {
    assert_eq!(parse_hex("##0a0b0c"), Color::rgb(0x0a, 0x0b, 0x0c));
    assert_eq!(parse_hex("+123456"), Color::rgb(0x12, 0x34, 0x56));
    assert_eq!(parse_hex(""), Color::rgb(0, 0, 0));
    assert_eq!(parse_hex("#"), Color::rgb(0, 0, 0));
    assert_eq!(parse_hex("+"), Color::rgb(0, 0, 0));
    assert_eq!(parse_hex("-123456"), Color::rgb(0, 0, 0));
    // Only the low three bytes of a 32-bit number count.
    assert_eq!(parse_hex("#ffAABBCC"), Color::rgb(0xaa, 0xbb, 0xcc));
    // Past 32 bits the number is invalid.
    assert_eq!(parse_hex("#1ffffffff"), Color::rgb(0, 0, 0));
    assert_eq!(parse_hex("abc"), Color::rgb(0x00, 0x0a, 0xbc));
}

#[test]
fn colors_config_parses_each_colour() {
    let cc = ColorsConfig {
        background: "#121212".to_string(),
        foreground: "#a0a0a0".to_string(),
        cursor: "#bbbbbb".to_string(),
        selection: "#3d3d3d".to_string(),
        palette: vec!["#1b1d1e".to_string(), "#ff0000".to_string()],
    };
    assert_eq!(cc.bg(), Color::rgb(0x12, 0x12, 0x12));
    assert_eq!(cc.fg(), Color::rgb(0xa0, 0xa0, 0xa0));
    assert_eq!(cc.cursor(), Color::rgb(0xbb, 0xbb, 0xbb));
    assert_eq!(cc.selection(), Color::rgb(0x3d, 0x3d, 0x3d));
    let p = cc.palette_colors();
    assert_eq!(p.len(), 16);
    assert_eq!(p[0], Color::rgb(0x1b, 0x1d, 0x1e));
    assert_eq!(p[1], Color::rgb(0xff, 0, 0));
    assert_eq!(p[2], Color::rgb(0, 0, 0));
    assert_eq!(p[15], Color::rgb(0, 0, 0));
}

#[test]
fn palette_colors_truncates_at_16() {
    let mut cc = ColorsConfig {
        background: "#121212".to_string(),
        foreground: "#a0a0a0".to_string(),
        cursor: "#bbbbbb".to_string(),
        selection: "#3d3d3d".to_string(),
        palette: (0..16).map(|i| format!("#0000{:02x}", i)).collect(),
    };
    cc.palette.push("#ffffff".to_string());
    cc.palette.push("#ffffff".to_string());
    let palette = cc.palette_colors();
    assert_eq!(palette.len(), 16);
    assert_eq!(palette[15], Color::rgb(0, 0, 15));
}

#[test]
fn parse_hex_reads_back_formatted_colours() {
    for &(r, g, b) in &[(0u8, 0u8, 0u8), (255, 255, 255), (0x12, 0xab, 0x7f), (1, 2, 3), (0xf0, 0x0f, 0xa5)] {
        let want = mmterm::grid::Color::rgb(r, g, b);
        assert_eq!(parse_hex(&format!("#{:02x}{:02x}{:02x}", r, g, b)), want);
        assert_eq!(parse_hex(&format!("{:02x}{:02x}{:02x}", r, g, b)), want);
        assert_eq!(parse_hex(&format!("#{:02X}{:02X}{:02X}", r, g, b)), want);
    }
}
