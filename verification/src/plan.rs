use vstd::prelude::*;

verus! {

use crate::select::Direction;
use crate::bindings::{Bind, bind_views};

/// The modifier of a key combination.
#[derive(Clone, Copy, PartialEq, Eq, Structural, Debug)]
pub enum Modifier {
    /// The literal `SUPER` modifier of the default bindings.
    Super,
    /// The configuration's `$mainMod` variable.
    MainMod,
}

/// A key under a modifier: an arrow key named after a direction, or a key
/// taken verbatim from the configuration.
#[derive(Debug, PartialEq, Eq)]
pub enum Key {
    Arrow(Direction),
    Named(Vec<char>),
}

/// What a bind command makes the key do: invoke this tool for a direction,
/// or the window manager's own `movefocus` with that direction's code.
#[derive(Clone, Copy, PartialEq, Eq, Structural, Debug)]
pub enum Action {
    FocusTool(Direction),
    MoveFocus(Direction),
}

/// One keyword command for the window manager: unbind a combination, or
/// bind it to an action.
#[derive(Debug, PartialEq, Eq)]
pub enum Cmd {
    Unbind { modifier: Modifier, key: Key },
    Bind { modifier: Modifier, key: Key, action: Action },
}

/// The mathematical shape of a key: the key text stands as a sequence.
#[verifier::ext_equal]
pub enum KeyView {
    Arrow(Direction),
    Named(Seq<char>),
}

/// The mathematical shape of a command.
#[verifier::ext_equal]
pub enum CmdView {
    Unbind { modifier: Modifier, key: KeyView },
    Bind { modifier: Modifier, key: KeyView, action: Action },
}

pub open spec fn key_view(k: Key) -> KeyView {
    match k {
        Key::Arrow(d) => KeyView::Arrow(d),
        Key::Named(v) => KeyView::Named(v@),
    }
}

pub open spec fn cmd_view(c: Cmd) -> CmdView {
    match c {
        Cmd::Unbind { modifier, key } => CmdView::Unbind { modifier, key: key_view(key) },
        Cmd::Bind { modifier, key, action } => CmdView::Bind {
            modifier,
            key: key_view(key),
            action,
        },
    }
}

pub open spec fn cmd_views(cs: Seq<Cmd>) -> Seq<CmdView> {
    cs.map_values(|c: Cmd| cmd_view(c))
}

/// Both plans begin by unbinding the four `SUPER` arrow combinations.
pub open spec fn super_arrow_unbinds() -> Seq<CmdView> {
    seq![
        CmdView::Unbind { modifier: Modifier::Super, key: KeyView::Arrow(Direction::Right) },
        CmdView::Unbind { modifier: Modifier::Super, key: KeyView::Arrow(Direction::Left) },
        CmdView::Unbind { modifier: Modifier::Super, key: KeyView::Arrow(Direction::Up) },
        CmdView::Unbind { modifier: Modifier::Super, key: KeyView::Arrow(Direction::Down) },
    ]
}

/// Fallback when no `movefocus` binding was found: bind the `SUPER` arrows
/// to this tool.
pub open spec fn default_tool_binds() -> Seq<CmdView> {
    seq![
        CmdView::Bind {
            modifier: Modifier::Super,
            key: KeyView::Arrow(Direction::Right),
            action: Action::FocusTool(Direction::Right),
        },
        CmdView::Bind {
            modifier: Modifier::Super,
            key: KeyView::Arrow(Direction::Left),
            action: Action::FocusTool(Direction::Left),
        },
        CmdView::Bind {
            modifier: Modifier::Super,
            key: KeyView::Arrow(Direction::Up),
            action: Action::FocusTool(Direction::Up),
        },
        CmdView::Bind {
            modifier: Modifier::Super,
            key: KeyView::Arrow(Direction::Down),
            action: Action::FocusTool(Direction::Down),
        },
    ]
}

/// For each extracted binding, in order: unbind the key from its old action,
/// then bind it to this tool with the same direction. The unbind always
/// precedes the bind of the same key.
pub open spec fn tool_rebinds(bs: Seq<(Seq<char>, Direction)>) -> Seq<CmdView>
    decreases bs.len(),
{
    if bs.len() == 0 {
        Seq::empty()
    } else {
        tool_rebinds(bs.drop_last()) + seq![
            CmdView::Unbind { modifier: Modifier::MainMod, key: KeyView::Named(bs.last().0) },
            CmdView::Bind {
                modifier: Modifier::MainMod,
                key: KeyView::Named(bs.last().0),
                action: Action::FocusTool(bs.last().1),
            },
        ]
    }
}

/// The whole plan that installs this tool's bindings: clear the `SUPER`
/// arrows, then rebind the configured keys, or fall back to the default
/// arrow set when none were found.
pub open spec fn enable_plan_view(bs: Seq<(Seq<char>, Direction)>) -> Seq<CmdView> {
    super_arrow_unbinds() + if bs.len() == 0 {
        default_tool_binds()
    } else {
        tool_rebinds(bs)
    }
}

/// Restore each extracted binding verbatim: bind the key back to
/// `movefocus` with its direction code.
pub open spec fn movefocus_rebinds(bs: Seq<(Seq<char>, Direction)>) -> Seq<CmdView>
    decreases bs.len(),
{
    if bs.len() == 0 {
        Seq::empty()
    } else {
        movefocus_rebinds(bs.drop_last()) + seq![
            CmdView::Bind {
                modifier: Modifier::MainMod,
                key: KeyView::Named(bs.last().0),
                action: Action::MoveFocus(bs.last().1),
            },
        ]
    }
}

/// Fallback when no binding was found: the window manager's stock
/// `movefocus` bindings on the `$mainMod` arrows.
pub open spec fn default_movefocus_binds() -> Seq<CmdView> {
    seq![
        CmdView::Bind {
            modifier: Modifier::MainMod,
            key: KeyView::Arrow(Direction::Left),
            action: Action::MoveFocus(Direction::Left),
        },
        CmdView::Bind {
            modifier: Modifier::MainMod,
            key: KeyView::Arrow(Direction::Right),
            action: Action::MoveFocus(Direction::Right),
        },
        CmdView::Bind {
            modifier: Modifier::MainMod,
            key: KeyView::Arrow(Direction::Up),
            action: Action::MoveFocus(Direction::Up),
        },
        CmdView::Bind {
            modifier: Modifier::MainMod,
            key: KeyView::Arrow(Direction::Down),
            action: Action::MoveFocus(Direction::Down),
        },
    ]
}

/// The whole plan that removes this tool's bindings: clear the `SUPER`
/// arrows, then restore the configured `movefocus` bindings, or the stock
/// set when none were found.
pub open spec fn disable_plan_view(bs: Seq<(Seq<char>, Direction)>) -> Seq<CmdView> {
    super_arrow_unbinds() + if bs.len() == 0 {
        default_movefocus_binds()
    } else {
        movefocus_rebinds(bs)
    }
}

fn copy_chars(s: &Vec<char>) -> (r: Vec<char>)
    ensures
        r@ == s@,
{
    let mut r: Vec<char> = Vec::new();
    let mut i: usize = 0;
    while i < s.len()
        invariant
            i <= s@.len(),
            r@ == s@.subrange(0, i as int),
        decreases s@.len() - i as int,
    {
        r.push(s[i]);
        assert(r@ =~= s@.subrange(0, i + 1));
        i = i + 1;
    }
    assert(s@.subrange(0, s@.len() as int) =~= s@);
    r
}

fn push_super_arrow_unbinds(out: &mut Vec<Cmd>)
    requires
        old(out)@.len() == 0,
    ensures
        cmd_views(final(out)@) == super_arrow_unbinds(),
{
    out.push(Cmd::Unbind { modifier: Modifier::Super, key: Key::Arrow(Direction::Right) });
    out.push(Cmd::Unbind { modifier: Modifier::Super, key: Key::Arrow(Direction::Left) });
    out.push(Cmd::Unbind { modifier: Modifier::Super, key: Key::Arrow(Direction::Up) });
    out.push(Cmd::Unbind { modifier: Modifier::Super, key: Key::Arrow(Direction::Down) });
    assert(cmd_views(out@) =~= super_arrow_unbinds());
}

/// The sequence of keyword commands that installs this tool's directional
/// bindings, given the `movefocus` bindings extracted from the
/// configuration.
#[verifier::loop_isolation(false)]
pub fn enable_plan(binds: &Vec<Bind>) -> (r: Vec<Cmd>)
    ensures
        cmd_views(r@) == enable_plan_view(bind_views(binds@)),
{
    let ghost bv = bind_views(binds@);
    let mut out: Vec<Cmd> = Vec::new();
    push_super_arrow_unbinds(&mut out);

    if binds.len() == 0 {
        out.push(
            Cmd::Bind {
                modifier: Modifier::Super,
                key: Key::Arrow(Direction::Right),
                action: Action::FocusTool(Direction::Right),
            },
        );
        out.push(
            Cmd::Bind {
                modifier: Modifier::Super,
                key: Key::Arrow(Direction::Left),
                action: Action::FocusTool(Direction::Left),
            },
        );
        out.push(
            Cmd::Bind {
                modifier: Modifier::Super,
                key: Key::Arrow(Direction::Up),
                action: Action::FocusTool(Direction::Up),
            },
        );
        out.push(
            Cmd::Bind {
                modifier: Modifier::Super,
                key: Key::Arrow(Direction::Down),
                action: Action::FocusTool(Direction::Down),
            },
        );
        assert(cmd_views(out@) =~= super_arrow_unbinds() + default_tool_binds());
    } else {
        let mut i: usize = 0;
        while i < binds.len()
            invariant
                i <= binds@.len(),
                cmd_views(out@) == super_arrow_unbinds() + tool_rebinds(
                    bv.subrange(0, i as int),
                ),
            decreases binds@.len() - i as int,
        {
            let b: &Bind = &binds[i];
            let key_unbind = copy_chars(&b.key);
            let key_bind = copy_chars(&b.key);
            let ghost e1 = CmdView::Unbind {
                modifier: Modifier::MainMod,
                key: KeyView::Named(binds@[i as int].key@),
            };
            let ghost e2 = CmdView::Bind {
                modifier: Modifier::MainMod,
                key: KeyView::Named(binds@[i as int].key@),
                action: Action::FocusTool(binds@[i as int].dir),
            };
            let ghost prev = out@;
            out.push(Cmd::Unbind { modifier: Modifier::MainMod, key: Key::Named(key_unbind) });
            assert(cmd_views(out@) =~= cmd_views(prev).push(e1));
            let ghost mid = out@;
            out.push(
                Cmd::Bind {
                    modifier: Modifier::MainMod,
                    key: Key::Named(key_bind),
                    action: Action::FocusTool(b.dir),
                },
            );
            assert(cmd_views(out@) =~= cmd_views(mid).push(e2));
            proof {
                assert(bv.subrange(0, i + 1).drop_last() =~= bv.subrange(0, i as int));
                assert(bv.subrange(0, i + 1).last() == bv[i as int]);
                assert(bv[i as int] == (binds@[i as int].key@, binds@[i as int].dir));
                assert(tool_rebinds(bv.subrange(0, i + 1)) == tool_rebinds(
                    bv.subrange(0, i as int),
                ) + seq![e1, e2]);
                assert(cmd_views(out@) =~= super_arrow_unbinds() + tool_rebinds(
                    bv.subrange(0, i + 1),
                ));
            }
            i = i + 1;
        }
        assert(bv.subrange(0, binds@.len() as int) =~= bv);
    }
    out
}

/// The sequence of keyword commands that removes this tool's bindings and
/// restores the window manager's own `movefocus` ones.
#[verifier::loop_isolation(false)]
pub fn disable_plan(binds: &Vec<Bind>) -> (r: Vec<Cmd>)
    ensures
        cmd_views(r@) == disable_plan_view(bind_views(binds@)),
{
    let ghost bv = bind_views(binds@);
    let mut out: Vec<Cmd> = Vec::new();
    push_super_arrow_unbinds(&mut out);

    if binds.len() == 0 {
        out.push(
            Cmd::Bind {
                modifier: Modifier::MainMod,
                key: Key::Arrow(Direction::Left),
                action: Action::MoveFocus(Direction::Left),
            },
        );
        out.push(
            Cmd::Bind {
                modifier: Modifier::MainMod,
                key: Key::Arrow(Direction::Right),
                action: Action::MoveFocus(Direction::Right),
            },
        );
        out.push(
            Cmd::Bind {
                modifier: Modifier::MainMod,
                key: Key::Arrow(Direction::Up),
                action: Action::MoveFocus(Direction::Up),
            },
        );
        out.push(
            Cmd::Bind {
                modifier: Modifier::MainMod,
                key: Key::Arrow(Direction::Down),
                action: Action::MoveFocus(Direction::Down),
            },
        );
        assert(cmd_views(out@) =~= super_arrow_unbinds() + default_movefocus_binds());
    } else {
        let mut i: usize = 0;
        while i < binds.len()
            invariant
                i <= binds@.len(),
                cmd_views(out@) == super_arrow_unbinds() + movefocus_rebinds(
                    bv.subrange(0, i as int),
                ),
            decreases binds@.len() - i as int,
        {
            let b: &Bind = &binds[i];
            let key = copy_chars(&b.key);
            let ghost e1 = CmdView::Bind {
                modifier: Modifier::MainMod,
                key: KeyView::Named(binds@[i as int].key@),
                action: Action::MoveFocus(binds@[i as int].dir),
            };
            let ghost prev = out@;
            out.push(
                Cmd::Bind {
                    modifier: Modifier::MainMod,
                    key: Key::Named(key),
                    action: Action::MoveFocus(b.dir),
                },
            );
            assert(cmd_views(out@) =~= cmd_views(prev).push(e1));
            proof {
                assert(bv.subrange(0, i + 1).drop_last() =~= bv.subrange(0, i as int));
                assert(bv.subrange(0, i + 1).last() == bv[i as int]);
                assert(bv[i as int] == (binds@[i as int].key@, binds@[i as int].dir));
                assert(movefocus_rebinds(bv.subrange(0, i + 1)) == movefocus_rebinds(
                    bv.subrange(0, i as int),
                ) + seq![e1]);
                assert(cmd_views(out@) =~= super_arrow_unbinds() + movefocus_rebinds(
                    bv.subrange(0, i + 1),
                ));
            }
            i = i + 1;
        }
        assert(bv.subrange(0, binds@.len() as int) =~= bv);
    }
    out
}

} // verus!
