use vstd::prelude::*;

verus! {

use crate::select::Direction;

/// What one command-line argument asks for. Anything unrecognised shows the
/// usage text, as does asking for help.
#[derive(Clone, Copy, PartialEq, Eq, Structural, Debug)]
pub enum Mode {
    Enable,
    Disable,
    Help,
    Focus(Direction),
}

/// The mode a lower-cased argument selects: the two mode words and the four
/// directions. Every other word — the help spellings among them — shows the
/// usage text.
pub open spec fn mode_of(s: Seq<char>) -> Mode {
    if s == seq!['e', 'n', 'a', 'b', 'l', 'e'] {
        Mode::Enable
    } else if s == seq!['d', 'i', 's', 'a', 'b', 'l', 'e'] {
        Mode::Disable
    } else if s == seq!['l', 'e', 'f', 't'] {
        Mode::Focus(Direction::Left)
    } else if s == seq!['r', 'i', 'g', 'h', 't'] {
        Mode::Focus(Direction::Right)
    } else if s == seq!['u', 'p'] {
        Mode::Focus(Direction::Up)
    } else if s == seq!['d', 'o', 'w', 'n'] {
        Mode::Focus(Direction::Down)
    } else {
        Mode::Help
    }
}

/// Match one argument, already lower-cased at the input boundary, against
/// the command words.
pub fn parse_command(arg: &Vec<char>) -> (r: Mode)
    ensures
        r == mode_of(arg@),
{
    if arg.len() == 6 && arg[0] == 'e' && arg[1] == 'n' && arg[2] == 'a' && arg[3] == 'b' && arg[4]
        == 'l' && arg[5] == 'e' {
        assert(arg@ =~= seq!['e', 'n', 'a', 'b', 'l', 'e']);
        Mode::Enable
    } else if arg.len() == 7 && arg[0] == 'd' && arg[1] == 'i' && arg[2] == 's' && arg[3] == 'a'
        && arg[4] == 'b' && arg[5] == 'l' && arg[6] == 'e' {
        assert(arg@ =~= seq!['d', 'i', 's', 'a', 'b', 'l', 'e']);
        Mode::Disable
    } else if arg.len() == 4 && arg[0] == 'l' && arg[1] == 'e' && arg[2] == 'f' && arg[3] == 't' {
        assert(arg@ =~= seq!['l', 'e', 'f', 't']);
        Mode::Focus(Direction::Left)
    } else if arg.len() == 5 && arg[0] == 'r' && arg[1] == 'i' && arg[2] == 'g' && arg[3] == 'h'
        && arg[4] == 't' {
        assert(arg@ =~= seq!['r', 'i', 'g', 'h', 't']);
        Mode::Focus(Direction::Right)
    } else if arg.len() == 2 && arg[0] == 'u' && arg[1] == 'p' {
        assert(arg@ =~= seq!['u', 'p']);
        Mode::Focus(Direction::Up)
    } else if arg.len() == 4 && arg[0] == 'd' && arg[1] == 'o' && arg[2] == 'w' && arg[3] == 'n' {
        assert(arg@ =~= seq!['d', 'o', 'w', 'n']);
        Mode::Focus(Direction::Down)
    } else {
        Mode::Help
    }
}

} // verus!
