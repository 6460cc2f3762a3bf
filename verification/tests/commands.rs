use hyprnav::bindings::Bind;
use hyprnav::cli::{parse_command, Mode};
use hyprnav::plan::{disable_plan, enable_plan, Action, Cmd, Key, Modifier};
use hyprnav::select::Direction;

fn cs(s: &str) -> Vec<char> {
    s.chars().collect()
}

fn unbind_super(d: Direction) -> Cmd {
    Cmd::Unbind { modifier: Modifier::Super, key: Key::Arrow(d) }
}

#[test]
fn enable_plan_falls_back_to_super_arrows() {
    let plan = enable_plan(&Vec::new());
    let mut expected = vec![
        unbind_super(Direction::Right),
        unbind_super(Direction::Left),
        unbind_super(Direction::Up),
        unbind_super(Direction::Down),
    ];
    for d in [Direction::Right, Direction::Left, Direction::Up, Direction::Down] {
        expected.push(Cmd::Bind {
            modifier: Modifier::Super,
            key: Key::Arrow(d),
            action: Action::FocusTool(d),
        });
    }
    assert_eq!(plan, expected);
}

#[test]
fn enable_plan_rebinds_each_found_key() {
    let binds = vec![
        Bind { key: cs("H"), dir: Direction::Left },
        Bind { key: cs("L"), dir: Direction::Right },
    ];
    let plan = enable_plan(&binds);
    let mut expected = vec![
        unbind_super(Direction::Right),
        unbind_super(Direction::Left),
        unbind_super(Direction::Up),
        unbind_super(Direction::Down),
    ];
    // For every binding the unbind of the key precedes its new bind.
    expected.push(Cmd::Unbind { modifier: Modifier::MainMod, key: Key::Named(cs("H")) });
    expected.push(Cmd::Bind {
        modifier: Modifier::MainMod,
        key: Key::Named(cs("H")),
        action: Action::FocusTool(Direction::Left),
    });
    expected.push(Cmd::Unbind { modifier: Modifier::MainMod, key: Key::Named(cs("L")) });
    expected.push(Cmd::Bind {
        modifier: Modifier::MainMod,
        key: Key::Named(cs("L")),
        action: Action::FocusTool(Direction::Right),
    });
    assert_eq!(plan, expected);
}

#[test]
fn disable_plan_restores_found_bindings() {
    let binds = vec![Bind { key: cs("J"), dir: Direction::Down }];
    let plan = disable_plan(&binds);
    let expected = vec![
        unbind_super(Direction::Right),
        unbind_super(Direction::Left),
        unbind_super(Direction::Up),
        unbind_super(Direction::Down),
        Cmd::Bind {
            modifier: Modifier::MainMod,
            key: Key::Named(cs("J")),
            action: Action::MoveFocus(Direction::Down),
        },
    ];
    assert_eq!(plan, expected);
}

#[test]
fn disable_plan_falls_back_to_stock_movefocus() {
    let plan = disable_plan(&Vec::new());
    let mut expected = vec![
        unbind_super(Direction::Right),
        unbind_super(Direction::Left),
        unbind_super(Direction::Up),
        unbind_super(Direction::Down),
    ];
    for d in [Direction::Left, Direction::Right, Direction::Up, Direction::Down] {
        expected.push(Cmd::Bind {
            modifier: Modifier::MainMod,
            key: Key::Arrow(d),
            action: Action::MoveFocus(d),
        });
    }
    assert_eq!(plan, expected);
}

#[test]
fn config_lines_feed_the_enable_plan() {
    let lines: Vec<Vec<char>> = vec![
        cs("bind = $mainMod, H, movefocus, l"),
        cs("bind = $mainMod, L, movefocus, r"),
    ];
    let binds = hyprnav::bindings::extract_movefocus_binds(&lines);
    let plan = enable_plan(&binds);
    assert_eq!(plan.len(), 8);
    assert_eq!(plan[4], Cmd::Unbind { modifier: Modifier::MainMod, key: Key::Named(cs("H")) });
    assert_eq!(
        plan[5],
        Cmd::Bind {
            modifier: Modifier::MainMod,
            key: Key::Named(cs("H")),
            action: Action::FocusTool(Direction::Left),
        }
    );
    assert_eq!(plan[6], Cmd::Unbind { modifier: Modifier::MainMod, key: Key::Named(cs("L")) });
}

#[test]
fn parse_command_recognises_every_word() {
    assert_eq!(parse_command(&cs("enable")), Mode::Enable);
    assert_eq!(parse_command(&cs("disable")), Mode::Disable);
    assert_eq!(parse_command(&cs("left")), Mode::Focus(Direction::Left));
    assert_eq!(parse_command(&cs("right")), Mode::Focus(Direction::Right));
    assert_eq!(parse_command(&cs("up")), Mode::Focus(Direction::Up));
    assert_eq!(parse_command(&cs("down")), Mode::Focus(Direction::Down));
    assert_eq!(parse_command(&cs("help")), Mode::Help);
}

#[test]
fn parse_command_falls_back_to_help() {
    assert_eq!(parse_command(&cs("")), Mode::Help);
    assert_eq!(parse_command(&cs("--help")), Mode::Help);
    assert_eq!(parse_command(&cs("-h")), Mode::Help);
    assert_eq!(parse_command(&cs("sideways")), Mode::Help);
    assert_eq!(parse_command(&cs("lefty")), Mode::Help);
}
