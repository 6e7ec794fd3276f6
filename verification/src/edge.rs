//! Detecting that the cursor has reached the edge of the current device's
//! screen next to another device's screen, and carrying a cursor position
//! across that edge.

use vstd::prelude::*;
use crate::device::DeviceId;
use crate::layout::Direction;
use crate::screen::{ScreenRect, fits_i32};

verus! {

/// The index of the first element of `s` that satisfies `p`, if any.
pub open spec fn first_where<A>(s: Seq<A>, p: spec_fn(A) -> bool) -> Option<int> {
    if exists|i: int| 0 <= i < s.len() && #[trigger] p(s[i]) {
        Some(
            choose|i: int|
                0 <= i < s.len() && #[trigger] p(s[i]) && forall|j: int|
                    0 <= j < i ==> !#[trigger] p(s[j]),
        )
    } else {
        None
    }
}

/// `i` is the first index whose element satisfies `p`.
pub proof fn lemma_first_where_found<A>(s: Seq<A>, p: spec_fn(A) -> bool, i: int)
    requires
        0 <= i < s.len(),
        p(s[i]),
        forall|j: int| 0 <= j < i ==> !#[trigger] p(s[j]),
    ensures
        first_where(s, p) == Some(i),
{
    let k = choose|k: int|
        0 <= k < s.len() && #[trigger] p(s[k]) && forall|j: int| 0 <= j < k ==> !#[trigger] p(s[j]);
    assert(p(s[i]));
    if k < i {
        assert(!p(s[k]));
    }
    if k > i {
        assert(!p(s[i]));
    }
}

/// No element satisfies `p`.
pub proof fn lemma_first_where_none<A>(s: Seq<A>, p: spec_fn(A) -> bool)
    requires
        forall|j: int| 0 <= j < s.len() ==> !#[trigger] p(s[j]),
    ensures
        first_where(s, p) == None::<int>,
{
}

/// Whether a screen entry belongs to `id`.
pub open spec fn belongs_to(id: DeviceId) -> spec_fn((DeviceId, ScreenRect)) -> bool {
    |e: (DeviceId, ScreenRect)| e.0 == id
}

/// The rectangle of the first screen listed for `id`.
pub open spec fn screen_of(s: Seq<(DeviceId, ScreenRect)>, id: DeviceId) -> Option<ScreenRect> {
    match first_where(s, belongs_to(id)) {
        Some(i) => Some(s[i].1),
        None => None,
    }
}

/// The edge of `r` that the point is within `t` of, tried in the order
/// left, right, top, bottom.
pub open spec fn edge_direction(r: ScreenRect, x: int, y: int, t: int) -> Option<Direction> {
    if x <= r.x + t {
        Some(Direction::Left)
    } else if x >= r.right_edge() - t {
        Some(Direction::Right)
    } else if y <= r.y + t {
        Some(Direction::Top)
    } else if y >= r.bottom_edge() - t {
        Some(Direction::Bottom)
    } else {
        None
    }
}

pub open spec fn abs(v: int) -> int {
    if v < 0 {
        -v
    } else {
        v
    }
}

/// Whether `other` lies beyond the `dir` edge of `cur`: the two edges are
/// less than `2 t` apart, and the cursor's other coordinate falls within
/// `other`'s span, both ends included.
pub open spec fn lies_beyond(
    cur: ScreenRect,
    other: ScreenRect,
    dir: Direction,
    x: int,
    y: int,
    t: int,
) -> bool {
    match dir {
        Direction::Right => abs(cur.right_edge() - other.x) < t * 2 && other.y <= y
            <= other.bottom_edge(),
        Direction::Left => abs(other.right_edge() - cur.x) < t * 2 && other.y <= y
            <= other.bottom_edge(),
        Direction::Bottom => abs(cur.bottom_edge() - other.y) < t * 2 && other.x <= x
            <= other.right_edge(),
        Direction::Top => abs(other.bottom_edge() - cur.y) < t * 2 && other.x <= x
            <= other.right_edge(),
    }
}

/// Whether a screen entry is another device's screen lying beyond the
/// `dir` edge of `cur`.
pub open spec fn neighbour_beyond(
    current: DeviceId,
    cur: ScreenRect,
    dir: Direction,
    x: int,
    y: int,
    t: int,
) -> spec_fn((DeviceId, ScreenRect)) -> bool {
    |e: (DeviceId, ScreenRect)| e.0 != current && lies_beyond(cur, e.1, dir, x, y, t)
}

/// The crossing that a cursor at `(x, y)` makes: the first device, other
/// than `current`, whose screen lies beyond the edge of `current`'s screen
/// that the cursor is at.
pub open spec fn crossing(
    s: Seq<(DeviceId, ScreenRect)>,
    current: DeviceId,
    t: int,
    x: int,
    y: int,
) -> Option<(DeviceId, Direction)> {
    match screen_of(s, current) {
        None => None,
        Some(cur) => match edge_direction(cur, x, y, t) {
            None => None,
            Some(dir) => match first_where(s, neighbour_beyond(current, cur, dir, x, y, t)) {
                Some(i) => Some((s[i].0, dir)),
                None => None,
            },
        },
    }
}

/// Where a cursor at `(x, y)` on `from` lands on `to` when it crosses in
/// `dir`: on `to`'s facing edge, at the same offset along the edge.
pub open spec fn translated(from: ScreenRect, to: ScreenRect, x: int, y: int, dir: Direction) -> (
    int,
    int,
) {
    match dir {
        Direction::Right => (to.x as int, to.y + (y - from.y)),
        Direction::Left => (to.right_edge(), to.y + (y - from.y)),
        Direction::Bottom => (to.x + (x - from.x), to.y as int),
        Direction::Top => (to.x + (x - from.x), to.bottom_edge()),
    }
}

/// The offset along the edge, and the landing point, are `i32` values.
pub open spec fn translation_fits(
    from: ScreenRect,
    to: ScreenRect,
    x: int,
    y: int,
    dir: Direction,
) -> bool {
    let p = translated(from, to, x, y, dir);
    &&& match dir {
        Direction::Right | Direction::Left => fits_i32(y - from.y),
        Direction::Bottom | Direction::Top => fits_i32(x - from.x),
    }
    &&& fits_i32(p.0)
    &&& fits_i32(p.1)
}

/// What translating the cursor gives: nothing unless both devices have a
/// screen.
pub open spec fn translation(
    s: Seq<(DeviceId, ScreenRect)>,
    x: int,
    y: int,
    from: DeviceId,
    to: DeviceId,
    dir: Direction,
) -> Option<(int, int)> {
    match (screen_of(s, from), screen_of(s, to)) {
        (Some(f), Some(t)) => Some(translated(f, t, x, y, dir)),
        _ => None,
    }
}

/// Translating the cursor stays within `i32` arithmetic.
pub open spec fn translation_in_range(
    s: Seq<(DeviceId, ScreenRect)>,
    x: int,
    y: int,
    from: DeviceId,
    to: DeviceId,
    dir: Direction,
) -> bool {
    match (screen_of(s, from), screen_of(s, to)) {
        (Some(f), Some(t)) => translation_fits(f, t, x, y, dir),
        _ => true,
    }
}

pub struct EdgeDetector {
    screen_bounds: Vec<(DeviceId, ScreenRect)>,
    edge_threshold: i32,
    current_device: DeviceId,
}

fn find_screen(s: &Vec<(DeviceId, ScreenRect)>, id: DeviceId) -> (r: Option<ScreenRect>)
    ensures
        r == screen_of(s@, id),
{
    let ghost p = belongs_to(id);
    let mut i: usize = 0;
    while i < s.len()
        invariant
            i <= s@.len(),
            p == belongs_to(id),
            forall|j: int| 0 <= j < i ==> !#[trigger] p(s@[j]),
        decreases s@.len() - i,
    {
        let e = s[i];
        if e.0 == id {
            proof {
                lemma_first_where_found(s@, p, i as int);
            }
            return Some(e.1);
        }
        i = i + 1;
    }
    proof {
        lemma_first_where_none(s@, p);
    }
    None
}

fn abs_i64(v: i64) -> (r: i64)
    requires
        v > i64::MIN,
    ensures
        r == abs(v as int),
{
    if v < 0 {
        -v
    } else {
        v
    }
}

fn lies_beyond_exec(
    cur: ScreenRect,
    other: ScreenRect,
    dir: Direction,
    x: i32,
    y: i32,
    t: i32,
) -> (b: bool)
    ensures
        b == lies_beyond(cur, other, dir, x as int, y as int, t as int),
{
    let cur_right = cur.x as i64 + cur.width as i64;
    let cur_bottom = cur.y as i64 + cur.height as i64;
    let other_right = other.x as i64 + other.width as i64;
    let other_bottom = other.y as i64 + other.height as i64;
    let limit = t as i64 * 2;
    match dir {
        Direction::Right => abs_i64(cur_right - other.x as i64) < limit && other.y <= y && (y as i64)
            <= other_bottom,
        Direction::Left => abs_i64(other_right - cur.x as i64) < limit && other.y <= y && (y as i64)
            <= other_bottom,
        Direction::Bottom => abs_i64(cur_bottom - other.y as i64) < limit && other.x <= x && (x as i64)
            <= other_right,
        Direction::Top => abs_i64(other_bottom - cur.y as i64) < limit && other.x <= x && (x as i64)
            <= other_right,
    }
}

impl EdgeDetector {
    /// The screens known to the detector, with the device of each.
    pub closed spec fn screens(&self) -> Seq<(DeviceId, ScreenRect)> {
        self.screen_bounds@
    }

    /// How close to an edge, in pixels, the cursor must come.
    pub closed spec fn threshold(&self) -> i32 {
        self.edge_threshold
    }

    /// The device whose screen the cursor is on.
    pub closed spec fn current(&self) -> DeviceId {
        self.current_device
    }

    pub fn new(current_device: DeviceId, edge_threshold: i32) -> (d: EdgeDetector)
        ensures
            d.screens() == Seq::<(DeviceId, ScreenRect)>::empty(),
            d.threshold() == edge_threshold,
            d.current() == current_device,
    {
        EdgeDetector { screen_bounds: Vec::new(), edge_threshold, current_device }
    }

    pub fn update_screens(&mut self, screens: Vec<(DeviceId, ScreenRect)>)
        ensures
            final(self).screens() == screens@,
            final(self).threshold() == old(self).threshold(),
            final(self).current() == old(self).current(),
    {
        self.screen_bounds = screens;
    }

    /// The device whose screen lies beyond the edge that the cursor at
    /// `(x, y)` has reached, with the direction of that edge.
    pub fn detect_edge_crossing(&self, x: i32, y: i32) -> (r: Option<(DeviceId, Direction)>)
        ensures
            r == crossing(self.screens(), self.current(), self.threshold() as int, x as int, y as int),
    {
        let current = self.current_device;
        let t = self.edge_threshold;
        let cur = match find_screen(&self.screen_bounds, current) {
            Some(r) => r,
            None => {
                return None;
            },
        };
        let right = cur.x as i64 + cur.width as i64;
        let bottom = cur.y as i64 + cur.height as i64;
        let dir = if (x as i64) <= cur.x as i64 + t as i64 {
            Direction::Left
        } else if (x as i64) >= right - t as i64 {
            Direction::Right
        } else if (y as i64) <= cur.y as i64 + t as i64 {
            Direction::Top
        } else if (y as i64) >= bottom - t as i64 {
            Direction::Bottom
        } else {
            return None;
        };
        let ghost s = self.screen_bounds@;
        let ghost p = neighbour_beyond(current, cur, dir, x as int, y as int, t as int);
        let mut i: usize = 0;
        while i < self.screen_bounds.len()
            invariant
                s == self.screen_bounds@,
                current == self.current_device,
                t == self.edge_threshold,
                screen_of(s, current) == Some(cur),
                edge_direction(cur, x as int, y as int, t as int) == Some(dir),
                i <= s.len(),
                p == neighbour_beyond(current, cur, dir, x as int, y as int, t as int),
                forall|j: int| 0 <= j < i ==> !#[trigger] p(s[j]),
            decreases s.len() - i,
        {
            let (device_id, rect) = self.screen_bounds[i];
            if device_id != current && lies_beyond_exec(cur, rect, dir, x, y, t) {
                proof {
                    lemma_first_where_found(s, p, i as int);
                }
                return Some((device_id, dir));
            }
            i = i + 1;
        }
        proof {
            lemma_first_where_none(s, p);
        }
        None
    }

    /// Whether translating the cursor stays within `i32` arithmetic.
    pub fn can_translate(
        &self,
        x: i32,
        y: i32,
        from_device: DeviceId,
        to_device: DeviceId,
        direction: Direction,
    ) -> (b: bool)
        ensures
            b == translation_in_range(
                self.screens(),
                x as int,
                y as int,
                from_device,
                to_device,
                direction,
            ),
    {
        let from = match find_screen(&self.screen_bounds, from_device) {
            Some(r) => r,
            None => {
                return true;
            },
        };
        let to = match find_screen(&self.screen_bounds, to_device) {
            Some(r) => r,
            None => {
                return true;
            },
        };
        let lo = i32::MIN as i64;
        let hi = i32::MAX as i64;
        let (rel, a, b) = match direction {
            Direction::Right => {
                let rel = y as i64 - from.y as i64;
                (rel, to.x as i64, to.y as i64 + rel)
            },
            Direction::Left => {
                let rel = y as i64 - from.y as i64;
                (rel, to.x as i64 + to.width as i64, to.y as i64 + rel)
            },
            Direction::Bottom => {
                let rel = x as i64 - from.x as i64;
                (rel, to.x as i64 + rel, to.y as i64)
            },
            Direction::Top => {
                let rel = x as i64 - from.x as i64;
                (rel, to.x as i64 + rel, to.y as i64 + to.height as i64)
            },
        };
        lo <= rel && rel <= hi && lo <= a && a <= hi && lo <= b && b <= hi
    }

    /// Where the cursor at `(x, y)` on `from_device` lands on `to_device`
    /// when it crosses in `direction`.
    pub fn translate_coordinates(
        &self,
        x: i32,
        y: i32,
        from_device: DeviceId,
        to_device: DeviceId,
        direction: Direction,
    ) -> (r: Option<(i32, i32)>)
        requires
            translation_in_range(self.screens(), x as int, y as int, from_device, to_device, direction),
        ensures
            match (r, translation(self.screens(), x as int, y as int, from_device, to_device, direction)) {
                (Some(p), Some(q)) => p.0 == q.0 && p.1 == q.1,
                (None, None) => true,
                _ => false,
            },
    {
        let from_rect = match find_screen(&self.screen_bounds, from_device) {
            Some(r) => r,
            None => {
                return None;
            },
        };
        let to_rect = match find_screen(&self.screen_bounds, to_device) {
            Some(r) => r,
            None => {
                return None;
            },
        };
        match direction {
            Direction::Right => {
                let rel_y = y - from_rect.y;
                Some((to_rect.x, to_rect.y + rel_y))
            },
            Direction::Left => {
                let rel_y = y - from_rect.y;
                Some((to_rect.right(), to_rect.y + rel_y))
            },
            Direction::Bottom => {
                let rel_x = x - from_rect.x;
                Some((to_rect.x + rel_x, to_rect.y))
            },
            Direction::Top => {
                let rel_x = x - from_rect.x;
                Some((to_rect.x + rel_x, to_rect.bottom()))
            },
        }
    }
}

/// A detected crossing leads to another device, one whose screen lies
/// beyond the edge of the current screen that the cursor is at.
pub proof fn lemma_crossing_leads_elsewhere(
    s: Seq<(DeviceId, ScreenRect)>,
    current: DeviceId,
    t: int,
    x: int,
    y: int,
    d: DeviceId,
    dir: Direction,
)
    requires
        crossing(s, current, t, x, y) == Some((d, dir)),
    ensures
        d != current,
        screen_of(s, current) is Some,
        edge_direction(screen_of(s, current)->Some_0, x, y, t) == Some(dir),
        exists|i: int|
            0 <= i < s.len() && (#[trigger] s[i]).0 == d && lies_beyond(
                screen_of(s, current)->Some_0,
                s[i].1,
                dir,
                x,
                y,
                t,
            ),
{
    let cur = screen_of(s, current)->Some_0;
    let p = neighbour_beyond(current, cur, dir, x, y, t);
    let k = first_where(s, p)->Some_0;
    lemma_first_where_holds(s, p);
    assert(p(s[k]));
}

/// The index that `first_where` finds satisfies the predicate.
pub proof fn lemma_first_where_holds<A>(s: Seq<A>, p: spec_fn(A) -> bool)
    requires
        first_where(s, p) is Some,
    ensures
        0 <= first_where(s, p)->Some_0 < s.len(),
        p(s[first_where(s, p)->Some_0]),
{
    let i = choose|i: int| 0 <= i < s.len() && #[trigger] p(s[i]);
    lemma_first_exists(s, p, i);
}

/// Where some element satisfies `p`, a first one does.
proof fn lemma_first_exists<A>(s: Seq<A>, p: spec_fn(A) -> bool, i: int)
    requires
        0 <= i < s.len(),
        p(s[i]),
    ensures
        exists|k: int|
            0 <= k < s.len() && #[trigger] p(s[k]) && forall|j: int| 0 <= j < k ==> !#[trigger] p(s[j]),
    decreases i,
{
    if exists|j: int| 0 <= j < i && #[trigger] p(s[j]) {
        let j = choose|j: int| 0 <= j < i && #[trigger] p(s[j]);
        lemma_first_exists(s, p, j);
    } else {
        assert(0 <= i < s.len() && p(s[i]) && forall|j: int| 0 <= j < i ==> !#[trigger] p(s[j]));
    }
}

/// The `c`-th entry of `s` is the first screen listed for `id`.
pub open spec fn is_first_screen(s: Seq<(DeviceId, ScreenRect)>, id: DeviceId, c: int) -> bool {
    &&& 0 <= c < s.len()
    &&& s[c].0 == id
    &&& forall|j: int| 0 <= j < c ==> (#[trigger] s[j]).0 != id
}

proof fn lemma_first_screen(s: Seq<(DeviceId, ScreenRect)>, id: DeviceId, c: int)
    requires
        is_first_screen(s, id, c),
    ensures
        screen_of(s, id) == Some(s[c].1),
{
    let p = belongs_to(id);
    assert forall|j: int| 0 <= j < c implies !#[trigger] p(s[j]) by {
        assert(s[j].0 != id);
    }
    lemma_first_where_found(s, p, c);
}

/// A crossing in `dir` is found once the cursor is at that edge of the
/// current screen and the `k`-th screen, another device's, lies beyond it.
proof fn lemma_crossing_found(
    s: Seq<(DeviceId, ScreenRect)>,
    current: DeviceId,
    c: int,
    k: int,
    t: int,
    x: int,
    y: int,
    dir: Direction,
)
    requires
        is_first_screen(s, current, c),
        0 <= k < s.len(),
        s[k].0 != current,
        edge_direction(s[c].1, x, y, t) == Some(dir),
        lies_beyond(s[c].1, s[k].1, dir, x, y, t),
    ensures
        crossing(s, current, t, x, y) is Some,
        crossing(s, current, t, x, y)->Some_0.1 == dir,
        crossing(s, current, t, x, y)->Some_0.0 != current,
{
    lemma_first_screen(s, current, c);
    let p = neighbour_beyond(current, s[c].1, dir, x, y, t);
    assert(p(s[k]));
    lemma_first_exists(s, p, k);
    lemma_first_where_holds(s, p);
}

/// With the cursor within the threshold of the current screen's left edge,
/// another device's screen whose right edge meets that edge, and whose
/// span takes in the cursor's height, is found as a crossing to the left.
pub proof fn lemma_screen_to_the_left_is_found(
    s: Seq<(DeviceId, ScreenRect)>,
    current: DeviceId,
    c: int,
    k: int,
    t: int,
    x: int,
    y: int,
)
    requires
        is_first_screen(s, current, c),
        0 <= k < s.len(),
        s[k].0 != current,
        t > 0,
        x <= s[c].1.x + t,
        s[k].1.x + s[k].1.width == s[c].1.x,
        s[k].1.y <= y <= s[k].1.y + s[k].1.height,
    ensures
        crossing(s, current, t, x, y) is Some,
        crossing(s, current, t, x, y)->Some_0.1 == Direction::Left,
        crossing(s, current, t, x, y)->Some_0.0 != current,
{
    lemma_crossing_found(s, current, c, k, t, x, y, Direction::Left);
}

/// With the cursor within the threshold of the current screen's right edge
/// (and not of its left), another device's screen whose left edge meets
/// that edge, and whose span takes in the cursor's height, is found as a
/// crossing to the right.
pub proof fn lemma_screen_to_the_right_is_found(
    s: Seq<(DeviceId, ScreenRect)>,
    current: DeviceId,
    c: int,
    k: int,
    t: int,
    x: int,
    y: int,
)
    requires
        is_first_screen(s, current, c),
        0 <= k < s.len(),
        s[k].0 != current,
        t > 0,
        s[c].1.x + t < x,
        x >= s[c].1.x + s[c].1.width - t,
        s[k].1.x == s[c].1.x + s[c].1.width,
        s[k].1.y <= y <= s[k].1.y + s[k].1.height,
    ensures
        crossing(s, current, t, x, y) is Some,
        crossing(s, current, t, x, y)->Some_0.1 == Direction::Right,
        crossing(s, current, t, x, y)->Some_0.0 != current,
{
    lemma_crossing_found(s, current, c, k, t, x, y, Direction::Right);
}

/// With the cursor within the threshold of the current screen's top edge
/// (and clear of its sides), another device's screen whose bottom edge
/// meets that edge, and whose span takes in the cursor's x, is found as a
/// crossing upwards.
pub proof fn lemma_screen_above_is_found(
    s: Seq<(DeviceId, ScreenRect)>,
    current: DeviceId,
    c: int,
    k: int,
    t: int,
    x: int,
    y: int,
)
    requires
        is_first_screen(s, current, c),
        0 <= k < s.len(),
        s[k].0 != current,
        t > 0,
        s[c].1.x + t < x < s[c].1.x + s[c].1.width - t,
        y <= s[c].1.y + t,
        s[k].1.y + s[k].1.height == s[c].1.y,
        s[k].1.x <= x <= s[k].1.x + s[k].1.width,
    ensures
        crossing(s, current, t, x, y) is Some,
        crossing(s, current, t, x, y)->Some_0.1 == Direction::Top,
        crossing(s, current, t, x, y)->Some_0.0 != current,
{
    lemma_crossing_found(s, current, c, k, t, x, y, Direction::Top);
}

/// With the cursor within the threshold of the current screen's bottom
/// edge (and clear of its other edges), another device's screen whose top
/// edge meets that edge, and whose span takes in the cursor's x, is found
/// as a crossing downwards.
pub proof fn lemma_screen_below_is_found(
    s: Seq<(DeviceId, ScreenRect)>,
    current: DeviceId,
    c: int,
    k: int,
    t: int,
    x: int,
    y: int,
)
    requires
        is_first_screen(s, current, c),
        0 <= k < s.len(),
        s[k].0 != current,
        t > 0,
        s[c].1.x + t < x < s[c].1.x + s[c].1.width - t,
        s[c].1.y + t < y,
        y >= s[c].1.y + s[c].1.height - t,
        s[k].1.y == s[c].1.y + s[c].1.height,
        s[k].1.x <= x <= s[k].1.x + s[k].1.width,
    ensures
        crossing(s, current, t, x, y) is Some,
        crossing(s, current, t, x, y)->Some_0.1 == Direction::Bottom,
        crossing(s, current, t, x, y)->Some_0.0 != current,
{
    lemma_crossing_found(s, current, c, k, t, x, y, Direction::Bottom);
}

/// Crossing an edge keeps the cursor's offset along it: the landing point
/// lies on the target screen's facing edge, as far from the target's top
/// (for a sideways crossing) or left (for an upward or downward one) as the
/// cursor was from the source screen's.
pub proof fn lemma_translation_keeps_offset(
    s: Seq<(DeviceId, ScreenRect)>,
    from: DeviceId,
    to: DeviceId,
    cf: int,
    ct: int,
    x: int,
    y: int,
    dir: Direction,
)
    requires
        is_first_screen(s, from, cf),
        is_first_screen(s, to, ct),
    ensures
        translation(s, x, y, from, to, dir) is Some,
        ({
            let p = translation(s, x, y, from, to, dir)->Some_0;
            let f = s[cf].1;
            let g = s[ct].1;
            match dir {
                Direction::Right => p.0 == g.x && p.1 - g.y == y - f.y,
                Direction::Left => p.0 == g.x + g.width && p.1 - g.y == y - f.y,
                Direction::Bottom => p.1 == g.y && p.0 - g.x == x - f.x,
                Direction::Top => p.1 == g.y + g.height && p.0 - g.x == x - f.x,
            }
        }),
{
    lemma_first_screen(s, from, cf);
    lemma_first_screen(s, to, ct);
}

} // verus!
