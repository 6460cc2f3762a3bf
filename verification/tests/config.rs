use hyprnav::bindings::{extract_movefocus_binds, parse_bind_line, Bind};
use hyprnav::select::Direction;

fn cs(s: &str) -> Vec<char> {
    s.chars().collect()
}

fn bind(key: &str, dir: Direction) -> Bind {
    Bind { key: cs(key), dir }
}

#[test]
fn parses_canonical_bind_line() {
    let r = parse_bind_line(&cs("bind = $mainMod, H, movefocus, l"));
    assert_eq!(r, Some(bind("H", Direction::Left)));
}

#[test]
fn parses_all_four_direction_codes() {
    assert_eq!(
        parse_bind_line(&cs("bind = $mainMod, h, movefocus, l")),
        Some(bind("h", Direction::Left))
    );
    assert_eq!(
        parse_bind_line(&cs("bind = $mainMod, j, movefocus, d")),
        Some(bind("j", Direction::Down))
    );
    assert_eq!(
        parse_bind_line(&cs("bind = $mainMod, k, movefocus, u")),
        Some(bind("k", Direction::Up))
    );
    assert_eq!(
        parse_bind_line(&cs("bind = $mainMod, l, movefocus, r")),
        Some(bind("l", Direction::Right))
    );
}

#[test]
fn tolerates_odd_spacing_and_trims_key() {
    let r = parse_bind_line(&cs("   bind=$mainMod ,  left arrow  ,movefocus , l"));
    assert_eq!(r, Some(bind("left arrow", Direction::Left)));
    let tabbed = parse_bind_line(&cs("\tbind\t=\t$mainMod\t,\tH\t,\tmovefocus\t,\tl"));
    assert_eq!(tabbed, Some(bind("H", Direction::Left)));
}

#[test]
fn trailing_text_after_direction_is_ignored() {
    let r = parse_bind_line(&cs("bind = $mainMod, H, movefocus, l # comment"));
    assert_eq!(r, Some(bind("H", Direction::Left)));
}

#[test]
fn direction_code_must_end_at_word_boundary() {
    assert_eq!(parse_bind_line(&cs("bind = $mainMod, H, movefocus, lx")), None);
    assert_eq!(parse_bind_line(&cs("bind = $mainMod, H, movefocus, l_")), None);
    assert_eq!(parse_bind_line(&cs("bind = $mainMod, H, movefocus, l2")), None);
}

#[test]
fn rejects_lines_without_the_bind_shape() {
    assert_eq!(parse_bind_line(&cs("")), None);
    assert_eq!(parse_bind_line(&cs("# bind = $mainMod, H, movefocus, l")), None);
    assert_eq!(parse_bind_line(&cs("bind = $mainMod, H, movewindow, l")), None);
    assert_eq!(parse_bind_line(&cs("bind = SUPER, H, movefocus, l")), None);
    assert_eq!(parse_bind_line(&cs("bind = $mainMod, H, movefocus, x")), None);
    assert_eq!(parse_bind_line(&cs("bind = $mainMod H movefocus l")), None);
    assert_eq!(parse_bind_line(&cs("bind = $mainMod,, movefocus, l")), None);
    assert_eq!(parse_bind_line(&cs("bind = $mainMod, H, movefocus")), None);
    assert_eq!(parse_bind_line(&cs("binde = $mainMod, H, movefocus, l")), None);
}

#[test]
fn whitespace_only_key_segment_trims_to_empty() {
    // A segment of one space between the commas has the required length,
    // and the key trims to nothing.
    let r = parse_bind_line(&cs("bind = $mainMod, , movefocus, l"));
    assert_eq!(r, Some(bind("", Direction::Left)));
}

#[test]
fn extracts_binds_in_file_order() {
    let lines: Vec<Vec<char>> = vec![
        cs("# focus movement"),
        cs("bind = $mainMod, H, movefocus, l"),
        cs("bind = $mainMod, J, movefocus, d"),
        cs("monitor = , preferred, auto, 1"),
        cs("bind = $mainMod, K, movefocus, u"),
        cs("bind = $mainMod, L, movefocus, r"),
        cs("bind = $mainMod, Q, killactive"),
    ];
    let binds = extract_movefocus_binds(&lines);
    assert_eq!(
        binds,
        vec![
            bind("H", Direction::Left),
            bind("J", Direction::Down),
            bind("K", Direction::Up),
            bind("L", Direction::Right),
        ]
    );
}

#[test]
fn extracts_nothing_from_unrelated_config() {
    let lines: Vec<Vec<char>> = vec![cs("exec-once = waybar"), cs("general {"), cs("}")];
    let binds = extract_movefocus_binds(&lines);
    assert_eq!(binds, Vec::new());
}
