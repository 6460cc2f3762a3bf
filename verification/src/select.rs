use vstd::prelude::*;

verus! {

use crate::geom::{
    Rect, center_x2, center_y2, vertical_overlap, horizontal_overlap, center_and_rect, overlap_1d,
};

/// A cardinal direction of travel for the focus.
#[derive(Clone, Copy, PartialEq, Eq, Structural, Debug)]
pub enum Direction {
    Left,
    Right,
    Up,
    Down,
}

/// One window of a snapshot: a stable opaque address, its on-screen
/// rectangle, and the workspace it belongs to. Windows are read-only
/// snapshots; a fresh list is fetched for every selection.
#[derive(Clone, Copy, PartialEq, Eq, Structural, Debug)]
pub struct Window {
    pub address: u64,
    pub rect: Rect,
    pub workspace: i64,
}

/// A candidate may be focused from `active` in direction `dir` when it is a
/// different window (by address, never by geometry), sits on the same
/// workspace, its center lies strictly on the requested side of the active
/// center along the travel axis, and its extent overlaps the active extent
/// by a positive amount along the orthogonal axis.
pub open spec fn eligible(dir: Direction, active: Window, c: Window) -> bool {
    &&& c.address != active.address
    &&& c.workspace == active.workspace
    &&& match dir {
        Direction::Right => center_x2(c.rect) > center_x2(active.rect) && vertical_overlap(
            active.rect,
            c.rect,
        ) > 0,
        Direction::Left => center_x2(c.rect) < center_x2(active.rect) && vertical_overlap(
            active.rect,
            c.rect,
        ) > 0,
        Direction::Down => center_y2(c.rect) > center_y2(active.rect) && horizontal_overlap(
            active.rect,
            c.rect,
        ) > 0,
        Direction::Up => center_y2(c.rect) < center_y2(active.rect) && horizontal_overlap(
            active.rect,
            c.rect,
        ) > 0,
    }
}

pub open spec fn abs_diff(a: int, b: int) -> int {
    if a >= b {
        a - b
    } else {
        b - a
    }
}

/// Doubled center-to-center distance along the travel axis.
pub open spec fn primary_dist(dir: Direction, active: Window, c: Window) -> int {
    match dir {
        Direction::Left | Direction::Right => abs_diff(center_x2(c.rect), center_x2(active.rect)),
        Direction::Up | Direction::Down => abs_diff(center_y2(c.rect), center_y2(active.rect)),
    }
}

/// Doubled center-to-center distance along the orthogonal axis: the
/// straightness penalty that breaks ties.
pub open spec fn secondary_dist(dir: Direction, active: Window, c: Window) -> int {
    match dir {
        Direction::Left | Direction::Right => abs_diff(center_y2(c.rect), center_y2(active.rect)),
        Direction::Up | Direction::Down => abs_diff(center_x2(c.rect), center_x2(active.rect)),
    }
}

/// `c1` scores strictly better than `c2`: lexicographic order on
/// `(primary, secondary)`.
pub open spec fn score_lt(dir: Direction, active: Window, c1: Window, c2: Window) -> bool {
    ||| primary_dist(dir, active, c1) < primary_dist(dir, active, c2)
    ||| (primary_dist(dir, active, c1) == primary_dist(dir, active, c2) && secondary_dist(
        dir,
        active,
        c1,
    ) < secondary_dist(dir, active, c2))
}

/// Index `i` holds the selector's answer: an eligible candidate that no
/// other eligible candidate strictly beats, standing strictly before every
/// earlier eligible candidate in the score order (so exact ties resolve to
/// the candidate seen first in the input).
pub open spec fn selected_at(dir: Direction, active: Window, cs: Seq<Window>, i: int) -> bool {
    &&& 0 <= i < cs.len()
    &&& eligible(dir, active, cs[i])
    &&& forall|j: int|
        0 <= j < cs.len() && eligible(dir, active, cs[j]) ==> !score_lt(
            dir,
            active,
            cs[j],
            cs[i],
        )
    &&& forall|j: int|
        0 <= j < i && eligible(dir, active, cs[j]) ==> score_lt(dir, active, cs[i], cs[j])
}

/// Lexicographic comparison of two scores: closer along the travel axis
/// first, ties decided by the smaller lateral offset.
pub fn score_before(p1: i128, s1: i128, p2: i128, s2: i128) -> (r: bool)
    ensures
        r == (p1 < p2 || (p1 == p2 && s1 < s2)),
{
    p1 < p2 || (p1 == p2 && s1 < s2)
}

/// Select the best window in direction `dir`, as an index into `clients`.
///
/// Returns `Some(i)` exactly when an eligible candidate exists, and then
/// `i` is the unique index satisfying `selected_at`: closest along the
/// travel axis, ties broken by lateral offset, exact ties by input order.
/// Returns `None` when no candidate passes the filters. Never fails.
#[verifier::loop_isolation(false)]
pub fn pick_target(dir: Direction, active: &Window, clients: &Vec<Window>) -> (r: Option<usize>)
    ensures
        match r {
            Some(i) => selected_at(dir, *active, clients@, i as int),
            None => forall|j: int| 0 <= j < clients@.len() ==> !eligible(dir, *active, clients@[j]),
        },
{
    let (axc, ayc, ax1, ay1, ax2, ay2) = center_and_rect(&active.rect);

    let mut best: Option<usize> = None;
    let mut best_p: i128 = 0;
    let mut best_s: i128 = 0;
    let mut i: usize = 0;

    while i < clients.len()
        invariant
            i <= clients@.len(),
            match best {
                Some(b) => {
                    &&& (b as int) < i as int
                    &&& eligible(dir, *active, clients@[b as int])
                    &&& best_p as int == primary_dist(dir, *active, clients@[b as int])
                    &&& best_s as int == secondary_dist(dir, *active, clients@[b as int])
                    &&& forall|j: int|
                        0 <= j < i as int && eligible(dir, *active, clients@[j]) ==> !score_lt(
                            dir,
                            *active,
                            clients@[j],
                            clients@[b as int],
                        )
                    &&& forall|j: int|
                        0 <= j < b as int && eligible(dir, *active, clients@[j]) ==> score_lt(
                            dir,
                            *active,
                            clients@[b as int],
                            clients@[j],
                        )
                },
                None => forall|j: int|
                    0 <= j < i as int ==> !eligible(dir, *active, clients@[j]),
            },
        decreases clients@.len() - i as int,
    {
        let c = clients[i];
        let mut take = false;
        let mut p: i128 = 0;
        let mut s: i128 = 0;

        if c.address != active.address && c.workspace == active.workspace {
            let (cxc, cyc, cx1, cy1, cx2, cy2) = center_and_rect(&c.rect);
            match dir {
                Direction::Right => {
                    if cxc > axc && overlap_1d(ay1, ay2, cy1, cy2) > 0 {
                        take = true;
                        p = cxc - axc;
                        let d = cyc - ayc;
                        s = if d >= 0 {
                            d
                        } else {
                            -d
                        };
                    }
                },
                Direction::Left => {
                    if cxc < axc && overlap_1d(ay1, ay2, cy1, cy2) > 0 {
                        take = true;
                        p = axc - cxc;
                        let d = cyc - ayc;
                        s = if d >= 0 {
                            d
                        } else {
                            -d
                        };
                    }
                },
                Direction::Down => {
                    if cyc > ayc && overlap_1d(ax1, ax2, cx1, cx2) > 0 {
                        take = true;
                        p = cyc - ayc;
                        let d = cxc - axc;
                        s = if d >= 0 {
                            d
                        } else {
                            -d
                        };
                    }
                },
                Direction::Up => {
                    if cyc < ayc && overlap_1d(ax1, ax2, cx1, cx2) > 0 {
                        take = true;
                        p = ayc - cyc;
                        let d = cxc - axc;
                        s = if d >= 0 {
                            d
                        } else {
                            -d
                        };
                    }
                },
            }
        }

        assert(take == eligible(dir, *active, clients@[i as int]));
        assert(take ==> p as int == primary_dist(dir, *active, clients@[i as int]) && s as int
            == secondary_dist(dir, *active, clients@[i as int]));

        if take {
            match best {
                None => {
                    best = Some(i);
                    best_p = p;
                    best_s = s;
                },
                Some(_b) => {
                    if score_before(p, s, best_p, best_s) {
                        best = Some(i);
                        best_p = p;
                        best_s = s;
                    }
                },
            }
        }
        i = i + 1;
    }
    best
}

/// The address to hand to the window manager, given the reported active
/// window (if any) and the snapshot. An absent active window yields no
/// dispatch; otherwise the selected candidate's address is returned, or
/// nothing when no candidate is eligible.
pub fn focus_target(dir: Direction, active: &Option<Window>, clients: &Vec<Window>) -> (r: Option<
    u64,
>)
    ensures
        match *active {
            None => r is None,
            Some(a) => match r {
                Some(addr) => exists|k: int|
                    selected_at(dir, a, clients@, k) && addr == clients@[k].address,
                None => forall|j: int| 0 <= j < clients@.len() ==> !eligible(dir, a, clients@[j]),
            },
        },
{
    match active {
        None => None,
        Some(a) => match pick_target(dir, a, clients) {
            Some(i) => {
                let addr = clients[i].address;
                assert(selected_at(dir, *a, clients@, i as int) && addr == clients@[
                    i as int
                ].address);
                Some(addr)
            },
            None => None,
        },
    }
}

/// The selector's answer is always eligible, so whatever excludes a window
/// from eligibility excludes it from selection.
pub proof fn lemma_not_eligible_not_selected(
    dir: Direction,
    active: Window,
    cs: Seq<Window>,
    i: int,
)
    requires
        !eligible(dir, active, cs[i]),
    ensures
        !selected_at(dir, active, cs, i),
{
}

/// Half-plane law: a candidate whose center does not lie strictly on the
/// requested side of the active center along the travel axis is never
/// eligible, so the selector never returns it. The centers compare through
/// their doubled coordinates, which is exact.
pub proof fn lemma_half_plane(dir: Direction, active: Window, c: Window)
    ensures
        dir == Direction::Right && center_x2(c.rect) <= center_x2(active.rect) ==> !eligible(
            dir,
            active,
            c,
        ),
        dir == Direction::Left && center_x2(c.rect) >= center_x2(active.rect) ==> !eligible(
            dir,
            active,
            c,
        ),
        dir == Direction::Down && center_y2(c.rect) <= center_y2(active.rect) ==> !eligible(
            dir,
            active,
            c,
        ),
        dir == Direction::Up && center_y2(c.rect) >= center_y2(active.rect) ==> !eligible(
            dir,
            active,
            c,
        ),
{
}

/// Workspace law: a candidate on a different workspace than the active
/// window is never eligible, whatever its geometry and whatever the
/// direction.
pub proof fn lemma_workspace_excluded(dir: Direction, active: Window, c: Window)
    requires
        c.workspace != active.workspace,
    ensures
        !eligible(dir, active, c),
{
}

/// Boundary-overlap law: a candidate whose orthogonal extents only touch
/// the active window's (shared extent exactly zero) is never eligible; the
/// overlap filter is exclusive of zero.
pub proof fn lemma_zero_overlap_excluded(dir: Direction, active: Window, c: Window)
    ensures
        (dir == Direction::Right || dir == Direction::Left) && vertical_overlap(active.rect, c.rect)
            == 0 ==> !eligible(dir, active, c),
        (dir == Direction::Up || dir == Direction::Down) && horizontal_overlap(active.rect, c.rect)
            == 0 ==> !eligible(dir, active, c),
{
}

/// The selector's answer is unique: at most one index satisfies
/// `selected_at`, so the choice is deterministic for a fixed input order.
pub proof fn lemma_selected_unique(
    dir: Direction,
    active: Window,
    cs: Seq<Window>,
    i: int,
    j: int,
)
    requires
        selected_at(dir, active, cs, i),
        selected_at(dir, active, cs, j),
    ensures
        i == j,
{
    if i < j {
        assert(score_lt(dir, active, cs[j], cs[i]));
        assert(!score_lt(dir, active, cs[j], cs[i]));
    }
    if j < i {
        assert(score_lt(dir, active, cs[i], cs[j]));
        assert(!score_lt(dir, active, cs[i], cs[j]));
    }
}

/// Tie-break law: when two eligible candidates tie exactly on
/// `(primary, secondary)`, the later one is never the selector's answer, so
/// the one appearing earlier in the input is returned.
pub proof fn lemma_tie_resolves_to_earlier(
    dir: Direction,
    active: Window,
    cs: Seq<Window>,
    i: int,
    j: int,
)
    requires
        0 <= i < j < cs.len(),
        eligible(dir, active, cs[i]),
        eligible(dir, active, cs[j]),
        primary_dist(dir, active, cs[i]) == primary_dist(dir, active, cs[j]),
        secondary_dist(dir, active, cs[i]) == secondary_dist(dir, active, cs[j]),
    ensures
        !selected_at(dir, active, cs, j),
{
    if selected_at(dir, active, cs, j) {
        assert(score_lt(dir, active, cs[j], cs[i]));
    }
}

} // verus!
