//! The arrangement of all devices' screens in one virtual desktop, and which
//! screen lies beyond which edge of another.

use vstd::prelude::*;
use std::collections::HashMap;
use crate::device::DeviceId;
use crate::screen::{ScreenId, ScreenRect, fits_i32};

verus! {

#[derive(Clone, Copy, Debug, PartialEq, Eq, Structural)]
pub enum Direction {
    Left,
    Right,
    Top,
    Bottom,
}

/// A screen of some device, placed in the virtual desktop.
#[derive(Clone, Copy, Debug, PartialEq, Eq, Structural)]
pub struct TopologyScreen {
    pub device_id: DeviceId,
    pub screen_id: ScreenId,
    pub global_rect: ScreenRect,
}

/// Leaving `from_screen` of `from_device` in `direction` leads to
/// `to_screen` of `to_device`.
#[derive(Clone, Copy, Debug, PartialEq, Eq, Structural)]
pub struct ScreenConnection {
    pub from_device: DeviceId,
    pub to_device: DeviceId,
    pub from_screen: ScreenId,
    pub to_screen: ScreenId,
    pub direction: Direction,
}

#[derive(Clone, Debug)]
pub struct ScreenTopology {
    pub screens: Vec<TopologyScreen>,
    pub connections: Vec<ScreenConnection>,
}

#[derive(Clone, Copy, Debug, PartialEq, Eq, Structural)]
pub struct DevicePosition {
    pub x: i32,
    pub y: i32,
}

#[derive(Clone, Copy, Debug, PartialEq, Eq, Structural)]
pub struct EdgeConfig {
    pub from: DeviceId,
    pub to: DeviceId,
    pub direction: Direction,
    pub enabled: bool,
}

/// The stored layout: where each device sits, keyed by the 128-bit value of
/// its id, and which edges join devices.
#[derive(Clone, Debug)]
pub struct LayoutConfig {
    pub device_positions: HashMap<u128, DevicePosition>,
    pub edges: Vec<EdgeConfig>,
}

impl Default for LayoutConfig {
    /// No device positions and no edges.
    fn default() -> (c: LayoutConfig)
        ensures
            c.device_positions@ == Map::<u128, DevicePosition>::empty(),
            c.edges@ == Seq::<EdgeConfig>::empty(),
    {
        LayoutConfig { device_positions: HashMap::new(), edges: Vec::new() }
    }
}

/// Whether connection `c` leaves `from` in `direction`.
pub open spec fn leaves(c: ScreenConnection, from: DeviceId, direction: Direction) -> bool {
    c.from_device == from && c.direction == direction
}

/// The device reached by the first connection that leaves `from` in
/// `direction`, if there is one.
pub open spec fn first_adjacent(
    connections: Seq<ScreenConnection>,
    from: DeviceId,
    direction: Direction,
) -> Option<DeviceId> {
    if exists|i: int| 0 <= i < connections.len() && leaves(#[trigger] connections[i], from, direction) {
        let i = choose|i: int|
            {
                &&& 0 <= i < connections.len()
                &&& leaves(#[trigger] connections[i], from, direction)
                &&& forall|j: int| 0 <= j < i ==> !leaves(#[trigger] connections[j], from, direction)
            };
        Some(connections[i].to_device)
    } else {
        None
    }
}

/// The smallest left edge of `s`, `i32::MAX` when `s` is empty.
pub open spec fn min_left(s: Seq<TopologyScreen>) -> int
    decreases s.len(),
{
    if s.len() == 0 {
        i32::MAX as int
    } else {
        let m = min_left(s.drop_last());
        let v = s.last().global_rect.x as int;
        if v < m {
            v
        } else {
            m
        }
    }
}

/// The smallest top edge of `s`, `i32::MAX` when `s` is empty.
pub open spec fn min_top(s: Seq<TopologyScreen>) -> int
    decreases s.len(),
{
    if s.len() == 0 {
        i32::MAX as int
    } else {
        let m = min_top(s.drop_last());
        let v = s.last().global_rect.y as int;
        if v < m {
            v
        } else {
            m
        }
    }
}

/// The largest right edge of `s`, `i32::MIN` when `s` is empty.
pub open spec fn max_right(s: Seq<TopologyScreen>) -> int
    decreases s.len(),
{
    if s.len() == 0 {
        i32::MIN as int
    } else {
        let m = max_right(s.drop_last());
        let v = s.last().global_rect.right_edge();
        if v > m {
            v
        } else {
            m
        }
    }
}

/// The largest bottom edge of `s`, `i32::MIN` when `s` is empty.
pub open spec fn max_bottom(s: Seq<TopologyScreen>) -> int
    decreases s.len(),
{
    if s.len() == 0 {
        i32::MIN as int
    } else {
        let m = max_bottom(s.drop_last());
        let v = s.last().global_rect.bottom_edge();
        if v > m {
            v
        } else {
            m
        }
    }
}

/// The screens' edges, and the size of the rectangle that holds them all,
/// are `i32` values.
pub open spec fn bounds_fit(s: Seq<TopologyScreen>) -> bool {
    &&& forall|i: int|
        0 <= i < s.len() ==> fits_i32((#[trigger] s[i]).global_rect.right_edge()) && fits_i32(
            s[i].global_rect.bottom_edge(),
        )
    &&& s.len() > 0 ==> fits_i32(max_right(s) - min_left(s)) && fits_i32(max_bottom(s) - min_top(s))
}

/// The smallest rectangle that holds every screen of `s`; the empty
/// rectangle at the origin when there is none.
pub open spec fn bounding_rect(s: Seq<TopologyScreen>) -> ScreenRect {
    if s.len() == 0 {
        ScreenRect { x: 0, y: 0, width: 0, height: 0 }
    } else {
        ScreenRect {
            x: min_left(s) as i32,
            y: min_top(s) as i32,
            width: (max_right(s) - min_left(s)) as i32,
            height: (max_bottom(s) - min_top(s)) as i32,
        }
    }
}

impl ScreenTopology {
    pub fn new() -> (t: ScreenTopology)
        ensures
            t.screens@ == Seq::<TopologyScreen>::empty(),
            t.connections@ == Seq::<ScreenConnection>::empty(),
    {
        ScreenTopology { screens: Vec::new(), connections: Vec::new() }
    }

    pub fn add_screen(&mut self, screen: TopologyScreen)
        ensures
            final(self).screens@ == old(self).screens@.push(screen),
            final(self).connections@ == old(self).connections@,
    {
        self.screens.push(screen);
    }

    pub fn add_connection(&mut self, conn: ScreenConnection)
        ensures
            final(self).connections@ == old(self).connections@.push(conn),
            final(self).screens@ == old(self).screens@,
    {
        self.connections.push(conn);
    }

    /// The device that the first connection leaving `from_device` in
    /// `direction` leads to.
    pub fn find_adjacent_device(&self, from_device: DeviceId, direction: Direction) -> (r: Option<
        DeviceId,
    >)
        ensures
            r == first_adjacent(self.connections@, from_device, direction),
    {
        let mut i: usize = 0;
        while i < self.connections.len()
            invariant
                i <= self.connections@.len(),
                forall|j: int| 0 <= j < i ==> !leaves(#[trigger] self.connections@[j], from_device, direction),
            decreases self.connections@.len() - i,
        {
            let c = self.connections[i];
            if c.from_device == from_device && c.direction == direction {
                proof {
                    let s = self.connections@;
                    assert(leaves(s[i as int], from_device, direction));
                    let k = choose|k: int|
                        {
                            &&& 0 <= k < s.len()
                            &&& leaves(#[trigger] s[k], from_device, direction)
                            &&& forall|j: int| 0 <= j < k ==> !leaves(#[trigger] s[j], from_device, direction)
                        };
                    assert(k == i) by {
                        if k < i {
                            assert(!leaves(s[k], from_device, direction));
                        }
                        if k > i {
                            assert(!leaves(s[i as int], from_device, direction));
                        }
                    }
                }
                return Some(c.to_device);
            }
            i = i + 1;
        }
        None
    }

    /// The smallest rectangle that holds every screen.
    pub fn global_virtual_bounds(&self) -> (r: ScreenRect)
        requires
            bounds_fit(self.screens@),
        ensures
            r == bounding_rect(self.screens@),
    {
        if self.screens.len() == 0 {
            return ScreenRect::new(0, 0, 0, 0);
        }
        let ghost s = self.screens@;
        let mut min_x: i32 = i32::MAX;
        let mut min_y: i32 = i32::MAX;
        let mut max_x: i32 = i32::MIN;
        let mut max_y: i32 = i32::MIN;
        let mut i: usize = 0;
        while i < self.screens.len()
            invariant
                s == self.screens@,
                bounds_fit(s),
                i <= s.len(),
                min_x == min_left(s.subrange(0, i as int)),
                min_y == min_top(s.subrange(0, i as int)),
                max_x == max_right(s.subrange(0, i as int)),
                max_y == max_bottom(s.subrange(0, i as int)),
            decreases s.len() - i,
        {
            let r = self.screens[i].global_rect;
            assert(s.subrange(0, i + 1).drop_last() == s.subrange(0, i as int));
            assert(s.subrange(0, i + 1).last() == s[i as int]);
            if r.x < min_x {
                min_x = r.x;
            }
            if r.y < min_y {
                min_y = r.y;
            }
            let right = r.right();
            if right > max_x {
                max_x = right;
            }
            let bottom = r.bottom();
            if bottom > max_y {
                max_y = bottom;
            }
            i = i + 1;
        }
        assert(s.subrange(0, s.len() as int) == s);
        ScreenRect::new(min_x, min_y, max_x - min_x, max_y - min_y)
    }
}

impl Default for ScreenTopology {
    fn default() -> (t: ScreenTopology)
        ensures
            t.screens@ == Seq::<TopologyScreen>::empty(),
            t.connections@ == Seq::<ScreenConnection>::empty(),
    {
        ScreenTopology::new()
    }
}

/// Every screen lies inside the bounding rectangle of all screens.
pub proof fn lemma_bounds_contain_screens(s: Seq<TopologyScreen>, i: int)
    requires
        0 <= i < s.len(),
    ensures
        min_left(s) <= s[i].global_rect.x,
        min_top(s) <= s[i].global_rect.y,
        s[i].global_rect.right_edge() <= max_right(s),
        s[i].global_rect.bottom_edge() <= max_bottom(s),
    decreases s.len(),
{
    if i < s.len() - 1 {
        lemma_bounds_contain_screens(s.drop_last(), i);
        assert(s.drop_last()[i] == s[i]);
    }
}

} // verus!
