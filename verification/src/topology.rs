//! Building the screen topology: placing devices' screens side by side and
//! joining neighbours, and turning the topology into a stored layout.

use vstd::prelude::*;
use std::collections::HashMap;
use crate::device::DeviceId;
use crate::layout::{
    DevicePosition, Direction, EdgeConfig, LayoutConfig, ScreenConnection, ScreenTopology,
    TopologyScreen, bounding_rect, bounds_fit, first_adjacent,
};
use crate::screen::{ScreenId, ScreenRect, fits_i32};

verus! {

broadcast use vstd::std_specs::hash::group_hash_axioms;

/// `m` with `sid` appended to the screens listed for `id`.
pub open spec fn with_screen(m: Map<u128, Seq<ScreenId>>, id: u128, sid: ScreenId) -> Map<
    u128,
    Seq<ScreenId>,
> {
    let prev = if m.contains_key(id) {
        m[id]
    } else {
        Seq::empty()
    };
    m.insert(id, prev.push(sid))
}

/// `m` with every screen of `s` appended, in order, under its device.
pub open spec fn with_screens(m: Map<u128, Seq<ScreenId>>, s: Seq<TopologyScreen>) -> Map<
    u128,
    Seq<ScreenId>,
>
    decreases s.len(),
{
    if s.len() == 0 {
        m
    } else {
        with_screen(with_screens(m, s.drop_last()), s.last().device_id.0, s.last().screen_id)
    }
}

/// The x offset at which the device after the first `k` is placed: each
/// device with a screen takes its main screen's width and a 10-pixel gap.
pub open spec fn offset_after(devices: Seq<(DeviceId, Vec<ScreenRect>)>, k: int) -> int
    decreases k,
{
    if k <= 0 {
        0
    } else if devices[k - 1].1@.len() > 0 {
        offset_after(devices, k - 1) + devices[k - 1].1@[0].width + 10
    } else {
        offset_after(devices, k - 1)
    }
}

/// The screens that laying out the first `k` devices places: the main
/// screen of each device that has one, left to right along the top edge.
pub open spec fn placed(devices: Seq<(DeviceId, Vec<ScreenRect>)>, k: int) -> Seq<TopologyScreen>
    decreases k,
{
    if k <= 0 {
        Seq::empty()
    } else if devices[k - 1].1@.len() > 0 {
        let main = devices[k - 1].1@[0];
        placed(devices, k - 1).push(
            TopologyScreen {
                device_id: devices[k - 1].0,
                screen_id: ScreenId(0),
                global_rect: ScreenRect {
                    x: offset_after(devices, k - 1) as i32,
                    y: 0,
                    width: main.width,
                    height: main.height,
                },
            },
        )
    } else {
        placed(devices, k - 1)
    }
}

/// The connections that join each device to the next, rightwards.
pub open spec fn chained(devices: Seq<(DeviceId, Vec<ScreenRect>)>) -> Seq<ScreenConnection> {
    Seq::new(
        if devices.len() == 0 {
            0
        } else {
            (devices.len() - 1) as nat
        },
        |i: int|
            ScreenConnection {
                from_device: devices[i].0,
                to_device: devices[i + 1].0,
                from_screen: ScreenId(0),
                to_screen: ScreenId(0),
                direction: Direction::Right,
            },
    )
}

/// The layout's x offsets, and each width plus the gap, are `i32` values.
pub open spec fn layout_fits(devices: Seq<(DeviceId, Vec<ScreenRect>)>) -> bool {
    forall|k: int|
        0 <= k < devices.len() && (#[trigger] devices[k]).1@.len() > 0 ==> fits_i32(
            devices[k].1@[0].width + 10,
        ) && fits_i32(offset_after(devices, k + 1))
}

/// The position that the stored layout gives each device: that of its last
/// listed screen.
pub open spec fn positions_of(s: Seq<TopologyScreen>) -> Map<u128, DevicePosition>
    decreases s.len(),
{
    if s.len() == 0 {
        Map::empty()
    } else {
        positions_of(s.drop_last()).insert(
            s.last().device_id.0,
            DevicePosition { x: s.last().global_rect.x, y: s.last().global_rect.y },
        )
    }
}

/// The stored, enabled edge of a connection.
pub open spec fn edge_of(c: ScreenConnection) -> EdgeConfig {
    EdgeConfig { from: c.from_device, to: c.to_device, direction: c.direction, enabled: true }
}

pub struct LayoutTopology {
    pub topology: ScreenTopology,
    device_screens: HashMap<u128, Vec<ScreenId>>,
}

impl LayoutTopology {
    /// The topology being built.
    pub closed spec fn topo(&self) -> ScreenTopology {
        self.topology
    }

    /// The screens listed for each device, keyed by the device id's value.
    pub closed spec fn screen_ids(&self) -> Map<u128, Seq<ScreenId>> {
        self.device_screens@.map_values(|v: Vec<ScreenId>| v@)
    }

    pub fn new() -> (t: LayoutTopology)
        ensures
            t.topo().screens@ == Seq::<TopologyScreen>::empty(),
            t.topo().connections@ == Seq::<ScreenConnection>::empty(),
            t.screen_ids() == Map::<u128, Seq<ScreenId>>::empty(),
    {
        let t = LayoutTopology { topology: ScreenTopology::new(), device_screens: HashMap::new() };
        assert(t.screen_ids() =~= Map::<u128, Seq<ScreenId>>::empty());
        t
    }

    /// Places `screen` in the topology and lists it for `device_id`.
    pub fn add_device_screen(&mut self, device_id: DeviceId, screen: TopologyScreen)
        ensures
            final(self).topo().screens@ == old(self).topo().screens@.push(screen),
            final(self).topo().connections@ == old(self).topo().connections@,
            final(self).screen_ids() == with_screen(old(self).screen_ids(), device_id.0, screen.screen_id),
    {
        let key = device_id.0;
        let ghost before = self.device_screens@;
        let mut list = match self.device_screens.remove(&key) {
            Some(v) => v,
            None => Vec::new(),
        };
        list.push(screen.screen_id);
        self.device_screens.insert(key, list);
        proof {
            let old_ids = before.map_values(|v: Vec<ScreenId>| v@);
            assert(self.device_screens@.map_values(|v: Vec<ScreenId>| v@) =~= with_screen(
                old_ids,
                key,
                screen.screen_id,
            ));
        }
        self.topology.add_screen(screen);
    }

    /// Joins `from_screen` of `from_device` to `to_screen` of `to_device`
    /// across the `direction` edge.
    pub fn connect_screens(
        &mut self,
        from_device: DeviceId,
        to_device: DeviceId,
        from_screen: ScreenId,
        to_screen: ScreenId,
        direction: Direction,
    )
        ensures
            final(self).topo().connections@ == old(self).topo().connections@.push(
                ScreenConnection { from_device, to_device, from_screen, to_screen, direction },
            ),
            final(self).topo().screens@ == old(self).topo().screens@,
            final(self).screen_ids() == old(self).screen_ids(),
    {
        self.topology.add_connection(
            ScreenConnection { from_device, to_device, from_screen, to_screen, direction },
        );
    }

    pub fn find_adjacent_device(&self, from_device: DeviceId, direction: Direction) -> (r: Option<
        DeviceId,
    >)
        ensures
            r == first_adjacent(self.topo().connections@, from_device, direction),
    {
        self.topology.find_adjacent_device(from_device, direction)
    }

    pub fn virtual_bounds(&self) -> (r: ScreenRect)
        requires
            bounds_fit(self.topo().screens@),
        ensures
            r == bounding_rect(self.topo().screens@),
    {
        self.topology.global_virtual_bounds()
    }

    /// Places the main screen of each device side by side, left to right
    /// with a 10-pixel gap, and joins each device to the next.
    pub fn auto_layout(&mut self, devices: &[(DeviceId, Vec<ScreenRect>)])
        requires
            layout_fits(devices@),
        ensures
            final(self).topo().screens@ == old(self).topo().screens@ + placed(
                devices@,
                devices@.len() as int,
            ),
            final(self).topo().connections@ == old(self).topo().connections@ + chained(devices@),
            final(self).screen_ids() == with_screens(
                old(self).screen_ids(),
                placed(devices@, devices@.len() as int),
            ),
    {
        let n = devices.len();
        let mut offset_x: i32 = 0;
        let mut i: usize = 0;
        while i < n
            invariant
                n == devices@.len(),
                layout_fits(devices@),
                i <= n,
                offset_x == offset_after(devices@, i as int),
                self.topology.screens@ == old(self).topo().screens@ + placed(devices@, i as int),
                self.topology.connections@ == old(self).topo().connections@,
                self.screen_ids() == with_screens(old(self).screen_ids(), placed(devices@, i as int)),
            decreases n - i,
        {
            let (device_id, screens) = &devices[i];
            if screens.len() > 0 {
                let main_screen = screens[0];
                proof {
                    assert(devices@[i as int].1@.len() > 0);
                }
                let rect = ScreenRect::new(offset_x, 0, main_screen.width, main_screen.height);
                let screen = TopologyScreen {
                    device_id: *device_id,
                    screen_id: ScreenId(0),
                    global_rect: rect,
                };
                self.add_device_screen(*device_id, screen);
                let step = main_screen.width + 10;
                offset_x = offset_x + step;
                proof {
                    let p = placed(devices@, i + 1);
                    assert(p == placed(devices@, i as int).push(screen));
                    assert(p.drop_last() == placed(devices@, i as int));
                    assert(old(self).topo().screens@ + p == (old(self).topo().screens@
                        + placed(devices@, i as int)).push(screen));
                }
            } else {
                proof {
                    assert(placed(devices@, i + 1) == placed(devices@, i as int));
                }
            }
            i = i + 1;
        }
        let ghost before = self.topology.connections@;
        let mut j: usize = 0;
        let links = if n == 0 {
            0
        } else {
            n - 1
        };
        while j < links
            invariant
                n == devices@.len(),
                links == chained(devices@).len(),
                j <= links,
                self.topology.screens@ == old(self).topo().screens@ + placed(devices@, n as int),
                self.topology.connections@ == before + chained(devices@).subrange(0, j as int),
                self.screen_ids() == with_screens(old(self).screen_ids(), placed(devices@, n as int)),
            decreases links - j,
        {
            self.connect_screens(devices[j].0, devices[j + 1].0, ScreenId(0), ScreenId(0), Direction::Right);
            proof {
                assert(chained(devices@).subrange(0, j + 1) == chained(devices@).subrange(
                    0,
                    j as int,
                ).push(chained(devices@)[j as int]));
            }
            j = j + 1;
        }
        proof {
            assert(chained(devices@).subrange(0, links as int) == chained(devices@));
        }
    }

    /// The stored layout of the topology: each device at the position of
    /// its last listed screen, and every connection as an enabled edge.
    pub fn to_config(&self) -> (c: LayoutConfig)
        ensures
            c.device_positions@ == positions_of(self.topo().screens@),
            c.edges@ == self.topo().connections@.map_values(|conn: ScreenConnection| edge_of(conn)),
    {
        let screens = &self.topology.screens;
        let mut positions: HashMap<u128, DevicePosition> = HashMap::new();
        let mut i: usize = 0;
        while i < screens.len()
            invariant
                i <= screens@.len(),
                positions@ == positions_of(screens@.subrange(0, i as int)),
            decreases screens@.len() - i,
        {
            let screen = screens[i];
            positions.insert(
                screen.device_id.0,
                DevicePosition { x: screen.global_rect.x, y: screen.global_rect.y },
            );
            proof {
                assert(screens@.subrange(0, i + 1).drop_last() == screens@.subrange(0, i as int));
            }
            i = i + 1;
        }
        proof {
            assert(screens@.subrange(0, screens@.len() as int) == screens@);
        }
        let conns = &self.topology.connections;
        let mut edges: Vec<EdgeConfig> = Vec::new();
        let mut j: usize = 0;
        while j < conns.len()
            invariant
                j <= conns@.len(),
                edges@ == conns@.subrange(0, j as int).map_values(|conn: ScreenConnection| edge_of(conn)),
            decreases conns@.len() - j,
        {
            let c = conns[j];
            edges.push(EdgeConfig { from: c.from_device, to: c.to_device, direction: c.direction, enabled: true });
            proof {
                assert(conns@.subrange(0, j + 1).map_values(|conn: ScreenConnection| edge_of(conn))
                    =~= conns@.subrange(0, j as int).map_values(|conn: ScreenConnection| edge_of(conn)).push(
                    edge_of(c),
                ));
            }
            j = j + 1;
        }
        proof {
            assert(conns@.subrange(0, conns@.len() as int) == conns@);
        }
        LayoutConfig { device_positions: positions, edges }
    }
}

impl Default for LayoutTopology {
    fn default() -> (t: LayoutTopology)
        ensures
            t.topo().screens@ == Seq::<TopologyScreen>::empty(),
            t.topo().connections@ == Seq::<ScreenConnection>::empty(),
            t.screen_ids() == Map::<u128, Seq<ScreenId>>::empty(),
    {
        LayoutTopology::new()
    }
}

/// Laying out places each screen 10 pixels right of where the one before
/// it ends, and the next screen would start 10 pixels right of the last.
pub proof fn lemma_placed_side_by_side(devices: Seq<(DeviceId, Vec<ScreenRect>)>, k: int)
    requires
        layout_fits(devices),
        0 <= k <= devices.len(),
    ensures
        fits_i32(offset_after(devices, k)),
        forall|i: int|
            0 <= i < placed(devices, k).len() - 1 ==> (#[trigger] placed(devices, k)[i + 1]).global_rect.x
                == placed(devices, k)[i].global_rect.x + placed(devices, k)[i].global_rect.width + 10,
        placed(devices, k).len() > 0 ==> placed(devices, k).last().global_rect.x + placed(
            devices,
            k,
        ).last().global_rect.width + 10 == offset_after(devices, k),
    decreases k,
{
    if k > 0 {
        lemma_placed_side_by_side(devices, k - 1);
        let prev = placed(devices, k - 1);
        if devices[k - 1].1@.len() > 0 {
            assert(fits_i32(devices[k - 1].1@[0].width + 10) && fits_i32(offset_after(devices, k)));
            let cur = placed(devices, k);
            assert(cur == prev.push(cur.last()));
            assert forall|i: int| 0 <= i < cur.len() - 1 implies (#[trigger] cur[i + 1]).global_rect.x
                == cur[i].global_rect.x + cur[i].global_rect.width + 10 by {
                if i + 1 < prev.len() {
                    assert(cur[i + 1] == prev[i + 1]);
                    assert(cur[i] == prev[i]);
                } else {
                    assert(cur[i] == prev.last());
                }
            }
        }
    }
}

/// After laying out distinct devices on an empty topology, leaving each
/// device to the right leads to the next device.
pub proof fn lemma_auto_layout_neighbours(devices: Seq<(DeviceId, Vec<ScreenRect>)>, i: int)
    requires
        0 <= i < devices.len() - 1,
        forall|a: int, b: int| 0 <= a < b < devices.len() ==> (#[trigger] devices[a]).0 != (
        #[trigger] devices[b]).0,
    ensures
        first_adjacent(Seq::<ScreenConnection>::empty() + chained(devices), devices[i].0, Direction::Right)
            == Some(devices[i + 1].0),
{
    let c = Seq::<ScreenConnection>::empty() + chained(devices);
    assert(c == chained(devices));
    let from = devices[i].0;
    assert(crate::layout::leaves(c[i], from, Direction::Right));
    let k = choose|k: int|
        {
            &&& 0 <= k < c.len()
            &&& crate::layout::leaves(#[trigger] c[k], from, Direction::Right)
            &&& forall|j: int| 0 <= j < k ==> !crate::layout::leaves(#[trigger] c[j], from, Direction::Right)
        };
    if k < i {
        assert(c[k].from_device == devices[k].0);
        assert(devices[k].0 != devices[i].0);
    }
    if k > i {
        assert(!crate::layout::leaves(c[i], from, Direction::Right));
    }
}

} // verus!
