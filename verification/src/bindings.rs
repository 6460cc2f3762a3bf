use vstd::prelude::*;

verus! {

use crate::select::Direction;

/// One keybinding extracted from the configuration file: the key bound under
/// the main modifier (trimmed of surrounding whitespace) and the direction
/// its `movefocus` action names.
#[derive(Debug, PartialEq, Eq)]
pub struct Bind {
    pub key: Vec<char>,
    pub dir: Direction,
}

/// What a bind says: the key text and the direction.
pub open spec fn bind_view(b: Bind) -> (Seq<char>, Direction) {
    (b.key@, b.dir)
}

pub open spec fn bind_views(bs: Seq<Bind>) -> Seq<(Seq<char>, Direction)> {
    bs.map_values(|b: Bind| bind_view(b))
}

/// The whitespace tolerated between the tokens of a bind statement: the
/// Unicode white-space code points, the set that `char::is_whitespace`
/// recognises.
pub open spec fn is_space(c: char) -> bool {
    let u = c as u32;
    ||| u == 0x20
    ||| (0x09 <= u && u <= 0x0d)
    ||| u == 0x85
    ||| u == 0xa0
    ||| u == 0x1680
    ||| (0x2000 <= u && u <= 0x200a)
    ||| u == 0x2028
    ||| u == 0x2029
    ||| u == 0x202f
    ||| u == 0x205f
    ||| u == 0x3000
}

/// ASCII word characters: letters, digits and underscore. The direction code
/// must not be followed by one, so that e.g. `lx` is not read as `l`.
pub open spec fn is_word_char(c: char) -> bool {
    let u = c as u32;
    ||| (0x30 <= u && u <= 0x39)
    ||| (0x41 <= u && u <= 0x5a)
    ||| (0x61 <= u && u <= 0x7a)
    ||| u == 0x5f
}

/// First position at or after `i` holding no whitespace (or the end).
pub open spec fn skip_spaces(s: Seq<char>, i: int) -> int
    decreases s.len() - i,
{
    if 0 <= i < s.len() && is_space(s[i]) {
        skip_spaces(s, i + 1)
    } else {
        i
    }
}

/// Scanning left from position `i` (an exclusive end), the position just
/// after the last non-whitespace character.
pub open spec fn skip_spaces_rev(s: Seq<char>, i: int) -> int
    decreases i,
{
    if 0 < i <= s.len() && is_space(s[i - 1]) {
        skip_spaces_rev(s, i - 1)
    } else {
        i
    }
}

/// First position at or after `i` holding a comma (or the end).
pub open spec fn find_comma(s: Seq<char>, i: int) -> int
    decreases s.len() - i,
{
    if 0 <= i < s.len() {
        if s[i] == ',' {
            i
        } else {
            find_comma(s, i + 1)
        }
    } else {
        i
    }
}

/// `s` with leading and trailing whitespace removed.
pub open spec fn trim_spaces(s: Seq<char>) -> Seq<char> {
    let a = skip_spaces(s, 0);
    let b = skip_spaces_rev(s, s.len() as int);
    if a < b {
        s.subrange(a, b)
    } else {
        Seq::empty()
    }
}

pub proof fn lemma_skip_spaces_rev_le(s: Seq<char>, i: int)
    requires
        0 <= i,
    ensures
        skip_spaces_rev(s, i) <= i,
    decreases i,
{
    if 0 < i <= s.len() && is_space(s[i - 1]) {
        lemma_skip_spaces_rev_le(s, i - 1);
    }
}

/// The literal `bind` at position `i`.
pub open spec fn bind_kw_at(s: Seq<char>, i: int) -> bool {
    &&& i + 4 <= s.len()
    &&& s[i] == 'b'
    &&& s[i + 1] == 'i'
    &&& s[i + 2] == 'n'
    &&& s[i + 3] == 'd'
}

/// The literal `$mainMod` at position `i`.
pub open spec fn mainmod_at(s: Seq<char>, i: int) -> bool {
    &&& i + 8 <= s.len()
    &&& s[i] == '$'
    &&& s[i + 1] == 'm'
    &&& s[i + 2] == 'a'
    &&& s[i + 3] == 'i'
    &&& s[i + 4] == 'n'
    &&& s[i + 5] == 'M'
    &&& s[i + 6] == 'o'
    &&& s[i + 7] == 'd'
}

/// The literal `movefocus` at position `i`.
pub open spec fn movefocus_at(s: Seq<char>, i: int) -> bool {
    &&& i + 9 <= s.len()
    &&& s[i] == 'm'
    &&& s[i + 1] == 'o'
    &&& s[i + 2] == 'v'
    &&& s[i + 3] == 'e'
    &&& s[i + 4] == 'f'
    &&& s[i + 5] == 'o'
    &&& s[i + 6] == 'c'
    &&& s[i + 7] == 'u'
    &&& s[i + 8] == 's'
}

pub open spec fn is_dir_code(c: char) -> bool {
    c == 'l' || c == 'r' || c == 'u' || c == 'd'
}

pub open spec fn dir_of_code(c: char) -> Direction
    recommends
        is_dir_code(c),
{
    if c == 'l' {
        Direction::Left
    } else if c == 'r' {
        Direction::Right
    } else if c == 'u' {
        Direction::Up
    } else {
        Direction::Down
    }
}

/// The bind-statement shape, scanned deterministically from the start of a
/// line: optional whitespace, `bind`, whitespace, `=`, whitespace,
/// `$mainMod`, whitespace, `,`, a non-empty key segment running to the next
/// comma, `movefocus`, whitespace, `,`, whitespace, one direction code
/// `l`/`r`/`u`/`d` not followed by a word character. Whatever follows is
/// ignored. Yields the trimmed key text and the direction, or nothing when
/// the line does not have the shape.
pub open spec fn bind_of_line(s: Seq<char>) -> Option<(Seq<char>, Direction)> {
    let i0 = skip_spaces(s, 0);
    if !bind_kw_at(s, i0) {
        None
    } else {
        let i1 = skip_spaces(s, i0 + 4);
        if !(i1 < s.len() && s[i1] == '=') {
            None
        } else {
            let i2 = skip_spaces(s, i1 + 1);
            if !mainmod_at(s, i2) {
                None
            } else {
                let i3 = skip_spaces(s, i2 + 8);
                if !(i3 < s.len() && s[i3] == ',') {
                    None
                } else {
                    let k1 = find_comma(s, i3 + 1);
                    if !(k1 < s.len() && i3 + 1 < k1) {
                        None
                    } else {
                        let i4 = skip_spaces(s, k1 + 1);
                        if !movefocus_at(s, i4) {
                            None
                        } else {
                            let i5 = skip_spaces(s, i4 + 9);
                            if !(i5 < s.len() && s[i5] == ',') {
                                None
                            } else {
                                let i6 = skip_spaces(s, i5 + 1);
                                if !(i6 < s.len() && is_dir_code(s[i6])) {
                                    None
                                } else if i6 + 1 < s.len() && is_word_char(s[i6 + 1]) {
                                    None
                                } else {
                                    Some(
                                        (
                                            trim_spaces(s.subrange(i3 + 1, k1)),
                                            dir_of_code(s[i6]),
                                        ),
                                    )
                                }
                            }
                        }
                    }
                }
            }
        }
    }
}

/// The (key, direction) pairs of every line matching the bind shape, in
/// file order.
pub open spec fn binds_of_lines(lines: Seq<Seq<char>>) -> Seq<(Seq<char>, Direction)>
    decreases lines.len(),
{
    if lines.len() == 0 {
        Seq::empty()
    } else {
        let init = binds_of_lines(lines.drop_last());
        match bind_of_line(lines.last()) {
            Some(b) => init.push(b),
            None => init,
        }
    }
}

pub open spec fn line_views(lines: Seq<Vec<char>>) -> Seq<Seq<char>> {
    lines.map_values(|l: Vec<char>| l@)
}

fn is_space_char(c: char) -> (r: bool)
    ensures
        r == is_space(c),
{
    let u = c as u32;
    u == 0x20 || (0x09 <= u && u <= 0x0d) || u == 0x85 || u == 0xa0 || u == 0x1680 || (0x2000 <= u
        && u <= 0x200a) || u == 0x2028 || u == 0x2029 || u == 0x202f || u == 0x205f || u == 0x3000
}

fn is_word_char_x(c: char) -> (r: bool)
    ensures
        r == is_word_char(c),
{
    let u = c as u32;
    (0x30 <= u && u <= 0x39) || (0x41 <= u && u <= 0x5a) || (0x61 <= u && u <= 0x7a) || u == 0x5f
}

#[verifier::loop_isolation(false)]
fn skip_spaces_x(s: &Vec<char>, from: usize) -> (r: usize)
    requires
        from <= s@.len(),
    ensures
        r as int == skip_spaces(s@, from as int),
        from <= r <= s@.len(),
{
    let mut i = from;
    while i < s.len() && is_space_char(s[i])
        invariant
            from <= i <= s@.len(),
            skip_spaces(s@, from as int) == skip_spaces(s@, i as int),
        decreases s@.len() - i as int,
    {
        i = i + 1;
    }
    assert(skip_spaces(s@, i as int) == i as int);
    i
}

#[verifier::loop_isolation(false)]
fn find_comma_x(s: &Vec<char>, from: usize) -> (r: usize)
    requires
        from <= s@.len(),
    ensures
        r as int == find_comma(s@, from as int),
        from <= r <= s@.len(),
{
    let mut i = from;
    while i < s.len() && s[i] != ','
        invariant
            from <= i <= s@.len(),
            find_comma(s@, from as int) == find_comma(s@, i as int),
        decreases s@.len() - i as int,
    {
        i = i + 1;
    }
    assert(find_comma(s@, i as int) == i as int);
    i
}

fn bind_kw_check(s: &Vec<char>, i: usize) -> (r: bool)
    requires
        i <= s@.len(),
    ensures
        r == bind_kw_at(s@, i as int),
{
    s.len() - i >= 4 && s[i] == 'b' && s[i + 1] == 'i' && s[i + 2] == 'n' && s[i + 3] == 'd'
}

fn mainmod_check(s: &Vec<char>, i: usize) -> (r: bool)
    requires
        i <= s@.len(),
    ensures
        r == mainmod_at(s@, i as int),
{
    s.len() - i >= 8 && s[i] == '$' && s[i + 1] == 'm' && s[i + 2] == 'a' && s[i + 3] == 'i' && s[i
        + 4] == 'n' && s[i + 5] == 'M' && s[i + 6] == 'o' && s[i + 7] == 'd'
}

fn movefocus_check(s: &Vec<char>, i: usize) -> (r: bool)
    requires
        i <= s@.len(),
    ensures
        r == movefocus_at(s@, i as int),
{
    s.len() - i >= 9 && s[i] == 'm' && s[i + 1] == 'o' && s[i + 2] == 'v' && s[i + 3] == 'e' && s[i
        + 4] == 'f' && s[i + 5] == 'o' && s[i + 6] == 'c' && s[i + 7] == 'u' && s[i + 8] == 's'
}

fn is_dir_char(c: char) -> (r: bool)
    ensures
        r == is_dir_code(c),
{
    c == 'l' || c == 'r' || c == 'u' || c == 'd'
}

fn dir_code(c: char) -> (r: Direction)
    ensures
        r == dir_of_code(c),
{
    if c == 'l' {
        Direction::Left
    } else if c == 'r' {
        Direction::Right
    } else if c == 'u' {
        Direction::Up
    } else {
        Direction::Down
    }
}

/// Copy of `s[from..to]` with leading and trailing whitespace removed.
#[verifier::loop_isolation(false)]
fn trim_segment(s: &Vec<char>, from: usize, to: usize) -> (r: Vec<char>)
    requires
        from <= to <= s@.len(),
    ensures
        r@ == trim_spaces(s@.subrange(from as int, to as int)),
{
    let ghost sub = s@.subrange(from as int, to as int);
    let mut a = from;
    while a < to && is_space_char(s[a])
        invariant
            from <= a <= to,
            skip_spaces(sub, 0) == skip_spaces(sub, a - from),
        decreases to - a,
    {
        assert(sub[a - from] == s@[a as int]);
        a = a + 1;
    }
    assert(skip_spaces(sub, 0) == a - from) by {
        if (a as int) < to as int {
            assert(sub[a - from] == s@[a as int]);
        }
    }

    let mut b = to;
    while b > a && is_space_char(s[b - 1])
        invariant
            a <= b <= to,
            a < to ==> a < b,
            skip_spaces_rev(sub, sub.len() as int) == skip_spaces_rev(sub, b - from),
        decreases b,
    {
        assert(sub[b - from - 1] == s@[b - 1]);
        assert(a < to ==> a < b - 1) by {
            if a < to && b - 1 == a {
                assert(!is_space(s@[a as int]));
            }
        }
        b = b - 1;
    }

    let mut r: Vec<char> = Vec::new();
    let mut k = a;
    while k < b
        invariant
            a <= k <= b,
            r@ == sub.subrange(a - from, k - from),
        decreases b - k,
    {
        r.push(s[k]);
        assert(r@ =~= sub.subrange(a - from, k + 1 - from));
        k = k + 1;
    }

    proof {
        if a == to {
            // Everything from `a` on was whitespace (or the segment is
            // empty), so the spec's right scan cannot pass the left one.
            lemma_skip_spaces_rev_le(sub, sub.len() as int);
            assert(trim_spaces(sub) =~= Seq::<char>::empty());
            assert(r@ =~= Seq::<char>::empty());
        } else {
            // `sub[a - from]` is not whitespace, so the right scan stops at
            // `b`, and the result is exactly `sub[a - from .. b - from]`.
            assert(!is_space(sub[a - from]));
            assert(sub[b - from - 1] == s@[b - 1]);
            assert(skip_spaces_rev(sub, b - from) == b - from);
            assert(trim_spaces(sub) == sub.subrange(a - from, b - from));
        }
    }
    r
}

/// Read one configuration line. Returns the key and direction of a
/// `movefocus` bind statement, or nothing when the line has a different
/// shape.
pub fn parse_bind_line(line: &Vec<char>) -> (r: Option<Bind>)
    ensures
        match r {
            Some(b) => bind_of_line(line@) == Some((b.key@, b.dir)),
            None => bind_of_line(line@) is None,
        },
{
    let n = line.len();
    let i0 = skip_spaces_x(line, 0);
    if !bind_kw_check(line, i0) {
        return None;
    }
    let i1 = skip_spaces_x(line, i0 + 4);
    if !(i1 < n && line[i1] == '=') {
        return None;
    }
    let i2 = skip_spaces_x(line, i1 + 1);
    if !mainmod_check(line, i2) {
        return None;
    }
    let i3 = skip_spaces_x(line, i2 + 8);
    if !(i3 < n && line[i3] == ',') {
        return None;
    }
    let k1 = find_comma_x(line, i3 + 1);
    if !(k1 < n && i3 + 1 < k1) {
        return None;
    }
    let i4 = skip_spaces_x(line, k1 + 1);
    if !movefocus_check(line, i4) {
        return None;
    }
    let i5 = skip_spaces_x(line, i4 + 9);
    if !(i5 < n && line[i5] == ',') {
        return None;
    }
    let i6 = skip_spaces_x(line, i5 + 1);
    if !(i6 < n && is_dir_char(line[i6])) {
        return None;
    }
    if i6 + 1 < n && is_word_char_x(line[i6 + 1]) {
        return None;
    }
    let key = trim_segment(line, i3 + 1, k1);
    let dir = dir_code(line[i6]);
    Some(Bind { key, dir })
}

/// All `movefocus` bindings found in the configuration's lines, preserving
/// file order.
#[verifier::loop_isolation(false)]
pub fn extract_movefocus_binds(lines: &Vec<Vec<char>>) -> (r: Vec<Bind>)
    ensures
        bind_views(r@) == binds_of_lines(line_views(lines@)),
{
    let ghost m = line_views(lines@);
    let mut out: Vec<Bind> = Vec::new();
    let mut i: usize = 0;
    while i < lines.len()
        invariant
            i <= lines@.len(),
            m == line_views(lines@),
            bind_views(out@) == binds_of_lines(m.subrange(0, i as int)),
        decreases lines@.len() - i as int,
    {
        let line: &Vec<char> = &lines[i];
        assert(m[i as int] == line@);
        proof {
            assert(m.subrange(0, i + 1).drop_last() =~= m.subrange(0, i as int));
            assert(m.subrange(0, i + 1).last() == m[i as int]);
        }
        match parse_bind_line(line) {
            Some(b) => {
                let ghost bv = bind_view(b);
                let ghost prev = out@;
                out.push(b);
                proof {
                    assert(bind_views(out@) =~= bind_views(prev).push(bv));
                }
            },
            None => {},
        }
        i = i + 1;
    }
    assert(m.subrange(0, lines@.len() as int) =~= m);
    out
}

} // verus!
