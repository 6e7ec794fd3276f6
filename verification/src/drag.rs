//! The window-drag state machine: a press on a window, a move beyond the
//! drag threshold, the crossing of a screen edge towards another device,
//! and the release that drops the window.

use vstd::prelude::*;
use crate::device::DeviceId;
use crate::edge::{EdgeDetector, abs, crossing, translation, translation_in_range};
use crate::event::{MouseButton, PointerEvent};
use crate::layout::Direction;
use crate::screen::ScreenRect;
use crate::window::WindowInfo;

verus! {

#[derive(Debug)]
pub enum DragState {
    Idle,
    MouseDown { pos: (i32, i32), window: Option<WindowInfo> },
    Dragging { start_pos: (i32, i32), current_pos: (i32, i32), window: WindowInfo },
    EdgeCrossing {
        target_device: DeviceId,
        direction: Direction,
        window: WindowInfo,
        cursor_pos: (i32, i32),
    },
}

impl Clone for DragState {
    fn clone(&self) -> (s: DragState)
        ensures
            s == *self,
    {
        match self {
            DragState::Idle => DragState::Idle,
            DragState::MouseDown { pos, window } => DragState::MouseDown {
                pos: (pos.0, pos.1),
                window: match window {
                    Some(w) => Some(w.clone()),
                    None => None,
                },
            },
            DragState::Dragging { start_pos, current_pos, window } => DragState::Dragging {
                start_pos: (start_pos.0, start_pos.1),
                current_pos: (current_pos.0, current_pos.1),
                window: window.clone(),
            },
            DragState::EdgeCrossing { target_device, direction, window, cursor_pos } =>
            DragState::EdgeCrossing {
                target_device: *target_device,
                direction: *direction,
                window: window.clone(),
                cursor_pos: (cursor_pos.0, cursor_pos.1),
            },
        }
    }
}

#[derive(Debug)]
pub enum DragEvent {
    WindowDragging { window: WindowInfo, position: (i32, i32) },
    WindowCrossingEdge {
        window: WindowInfo,
        target_device: DeviceId,
        direction: Direction,
        target_position: (i32, i32),
    },
    WindowDropped { window: WindowInfo, position: (i32, i32) },
}

impl Clone for DragEvent {
    fn clone(&self) -> (e: DragEvent)
        ensures
            e == *self,
    {
        match self {
            DragEvent::WindowDragging { window, position } => DragEvent::WindowDragging {
                window: window.clone(),
                position: (position.0, position.1),
            },
            DragEvent::WindowCrossingEdge { window, target_device, direction, target_position } =>
            DragEvent::WindowCrossingEdge {
                window: window.clone(),
                target_device: *target_device,
                direction: *direction,
                target_position: (target_position.0, target_position.1),
            },
            DragEvent::WindowDropped { window, position } => DragEvent::WindowDropped {
                window: window.clone(),
                position: (position.0, position.1),
            },
        }
    }
}

/// Whether the cursor has moved from `start` to `pos` by more than
/// `threshold` along either axis.
pub open spec fn moved_beyond(start: (i32, i32), pos: (i32, i32), threshold: i32) -> bool {
    abs(pos.0 - start.0) > threshold || abs(pos.1 - start.1) > threshold
}

/// Where the cursor lands on the target device, `(0, 0)` when either
/// device has no screen.
pub open spec fn landing(
    screens: Seq<(DeviceId, ScreenRect)>,
    x: i32,
    y: i32,
    from: DeviceId,
    to: DeviceId,
    dir: Direction,
) -> (i32, i32) {
    match translation(screens, x as int, y as int, from, to, dir) {
        Some(p) => (p.0 as i32, p.1 as i32),
        None => (0, 0),
    }
}

/// What releasing the left button does in `state`: the drag ends, and a
/// dragged window is dropped at the cursor, or at `(0, 0)` when it was
/// crossing an edge.
pub open spec fn after_release(state: DragState) -> (DragState, Option<DragEvent>) {
    match state {
        DragState::Dragging { window, current_pos, .. } => (
            DragState::Idle,
            Some(DragEvent::WindowDropped { window, position: current_pos }),
        ),
        DragState::EdgeCrossing { window, .. } => (
            DragState::Idle,
            Some(DragEvent::WindowDropped { window, position: (0, 0) }),
        ),
        _ => (DragState::Idle, None),
    }
}

pub struct WindowDragDetector {
    current_device: DeviceId,
    edge_detector: EdgeDetector,
    drag_state: DragState,
    drag_threshold: i32,
    title_bar_height: i32,
    /// Where the cursor was last seen, `(0, 0)` before any move.
    cursor: (i32, i32),
}

impl WindowDragDetector {
    /// The state of the drag.
    pub closed spec fn current_state(&self) -> DragState {
        self.drag_state
    }

    /// The device the detector runs on.
    pub closed spec fn device(&self) -> DeviceId {
        self.current_device
    }

    /// The screens that edge crossings are detected against.
    pub closed spec fn edges(&self) -> EdgeDetector {
        self.edge_detector
    }

    /// How far, in pixels, the cursor must move before a press becomes a
    /// drag.
    pub closed spec fn threshold(&self) -> i32 {
        self.drag_threshold
    }

    /// Where the cursor was last seen: the position of the last move, or
    /// `(0, 0)` before any.
    pub closed spec fn cursor(&self) -> (i32, i32) {
        self.cursor
    }

    /// The crossing, if any, that the cursor makes at `(x, y)`.
    pub open spec fn crossing_at(&self, x: i32, y: i32) -> Option<(DeviceId, Direction)> {
        crossing(
            self.edges().screens(),
            self.edges().current(),
            self.edges().threshold() as int,
            x as int,
            y as int,
        )
    }

    /// Where the cursor at `(x, y)` lands on `to` when crossing in `dir`.
    pub open spec fn landing_at(&self, x: i32, y: i32, to: DeviceId, dir: Direction) -> (i32, i32) {
        landing(self.edges().screens(), x, y, self.device(), to, dir)
    }

    /// What moving the cursor to `(x, y)` does: a press on a window becomes
    /// a drag once the cursor has moved beyond the threshold; a drag follows
    /// the cursor until it reaches an edge next to another device, and from
    /// then on reports where the cursor would land there.
    pub open spec fn after_move(&self, x: i32, y: i32) -> (DragState, Option<DragEvent>) {
        let state = self.current_state();
        match state {
            DragState::Idle => (state, None),
            DragState::MouseDown { pos: start, window } => if moved_beyond(
                start,
                (x, y),
                self.threshold(),
            ) && window is Some {
                (
                    DragState::Dragging {
                        start_pos: start,
                        current_pos: (x, y),
                        window: window->Some_0,
                    },
                    None,
                )
            } else {
                (state, None)
            },
            DragState::Dragging { start_pos, window, .. } => match self.crossing_at(x, y) {
                Some((target, dir)) => (
                    DragState::EdgeCrossing {
                        target_device: target,
                        direction: dir,
                        window,
                        cursor_pos: (x, y),
                    },
                    Some(
                        DragEvent::WindowCrossingEdge {
                            window,
                            target_device: target,
                            direction: dir,
                            target_position: self.landing_at(x, y, target, dir),
                        },
                    ),
                ),
                None => (
                    DragState::Dragging { start_pos, current_pos: (x, y), window },
                    Some(DragEvent::WindowDragging { window, position: (x, y) }),
                ),
            },
            DragState::EdgeCrossing { target_device, direction, window, .. } => (
                state,
                Some(
                    DragEvent::WindowCrossingEdge {
                        window,
                        target_device,
                        direction,
                        target_position: self.landing_at(x, y, target_device, direction),
                    },
                ),
            ),
        }
    }

    /// What an input event does to the drag, `window` being the window
    /// under the cursor when the event came: pressing the left button arms
    /// a possible drag of that window at the cursor.
    pub open spec fn after_event(&self, event: PointerEvent, window: Option<WindowInfo>) -> (
        DragState,
        Option<DragEvent>,
    ) {
        match event {
            PointerEvent::Move { screen_x, screen_y } => self.after_move(screen_x, screen_y),
            PointerEvent::ButtonDown(MouseButton::Left) => (
                DragState::MouseDown { pos: self.cursor(), window },
                None,
            ),
            PointerEvent::ButtonUp(MouseButton::Left) => after_release(self.current_state()),
            _ => (self.current_state(), None),
        }
    }

    /// Where the cursor is seen after `event`.
    pub open spec fn cursor_after(&self, event: PointerEvent) -> (i32, i32) {
        match event {
            PointerEvent::Move { screen_x, screen_y } => (screen_x, screen_y),
            _ => self.cursor(),
        }
    }

    /// Handling `event` stays within `i32` arithmetic: the distance moved
    /// from a press, and the landing point on another device, are `i32`
    /// values.
    pub open spec fn handles_in_range(&self, event: PointerEvent) -> bool {
        match event {
            PointerEvent::Move { screen_x: x, screen_y: y } => match self.current_state() {
                DragState::MouseDown { pos, .. } => {
                    &&& i32::MIN < x - pos.0 <= i32::MAX
                    &&& i32::MIN < y - pos.1 <= i32::MAX
                },
                DragState::Dragging { .. } => match self.crossing_at(x, y) {
                    Some((target, dir)) => translation_in_range(
                        self.edges().screens(),
                        x as int,
                        y as int,
                        self.device(),
                        target,
                        dir,
                    ),
                    None => true,
                },
                DragState::EdgeCrossing { target_device, direction, .. } => translation_in_range(
                    self.edges().screens(),
                    x as int,
                    y as int,
                    self.device(),
                    target_device,
                    direction,
                ),
                DragState::Idle => true,
            },
            _ => true,
        }
    }

    /// The other parts of the detector are left as they were.
    pub open spec fn same_setup(&self, other: &WindowDragDetector) -> bool {
        &&& self.device() == other.device()
        &&& self.edges() == other.edges()
        &&& self.threshold() == other.threshold()
    }

    /// A detector for `current_device` with the given screens, a 5-pixel
    /// edge and drag threshold, no drag under way and the cursor taken to be
    /// at `(0, 0)`.
    pub fn new(current_device: DeviceId, screen_bounds: Vec<(DeviceId, ScreenRect)>) -> (d:
        WindowDragDetector)
        ensures
            d.current_state() == DragState::Idle,
            d.device() == current_device,
            d.edges().current() == current_device,
            d.edges().screens() == screen_bounds@,
            d.edges().threshold() == 5,
            d.threshold() == 5,
            d.cursor() == (0i32, 0i32),
    {
        let mut edge_detector = EdgeDetector::new(current_device, 5);
        edge_detector.update_screens(screen_bounds);
        WindowDragDetector {
            current_device,
            edge_detector,
            drag_state: DragState::Idle,
            drag_threshold: 5,
            title_bar_height: 32,
            cursor: (0, 0),
        }
    }

    /// Whether handling `event` stays within `i32` arithmetic.
    pub fn can_process(&self, event: &PointerEvent) -> (b: bool)
        ensures
            b == self.handles_in_range(*event),
    {
        match event {
            PointerEvent::Move { screen_x, screen_y } => {
                let x = *screen_x;
                let y = *screen_y;
                match &self.drag_state {
                    DragState::MouseDown { pos, .. } => {
                        let dx = x as i64 - pos.0 as i64;
                        let dy = y as i64 - pos.1 as i64;
                        let lo = i32::MIN as i64;
                        let hi = i32::MAX as i64;
                        lo < dx && dx <= hi && lo < dy && dy <= hi
                    },
                    DragState::Dragging { .. } => match self.edge_detector.detect_edge_crossing(
                        x,
                        y,
                    ) {
                        Some((target, dir)) => self.edge_detector.can_translate(
                            x,
                            y,
                            self.current_device,
                            target,
                            dir,
                        ),
                        None => true,
                    },
                    DragState::EdgeCrossing { target_device, direction, .. } =>
                    self.edge_detector.can_translate(
                        x,
                        y,
                        self.current_device,
                        *target_device,
                        *direction,
                    ),
                    DragState::Idle => true,
                }
            },
            _ => true,
        }
    }

    fn landing_exec(&self, x: i32, y: i32, to: DeviceId, dir: Direction) -> (p: (i32, i32))
        requires
            translation_in_range(self.edges().screens(), x as int, y as int, self.device(), to, dir),
        ensures
            p == self.landing_at(x, y, to, dir),
    {
        match self.edge_detector.translate_coordinates(x, y, self.current_device, to, dir) {
            Some(p) => p,
            None => (0, 0),
        }
    }

    /// Feeds one input event to the drag; `window` is the window under the
    /// cursor when the event came, which a left press arms for dragging.
    pub fn process_input(&mut self, event: &PointerEvent, window: Option<WindowInfo>) -> (r: Option<
        DragEvent,
    >)
        requires
            old(self).handles_in_range(*event),
        ensures
            (final(self).current_state(), r) == old(self).after_event(*event, window),
            final(self).cursor() == old(self).cursor_after(*event),
            final(self).same_setup(old(self)),
    {
        match event {
            PointerEvent::Move { screen_x, screen_y } => self.handle_mouse_move(*screen_x, *screen_y),
            PointerEvent::ButtonDown(btn) => {
                if *btn == MouseButton::Left {
                    self.drag_state = DragState::MouseDown { pos: self.cursor, window };
                }
                None
            },
            PointerEvent::ButtonUp(btn) => {
                if *btn == MouseButton::Left {
                    self.handle_mouse_up()
                } else {
                    None
                }
            },
            _ => None,
        }
    }

    fn handle_mouse_move(&mut self, screen_x: i32, screen_y: i32) -> (r: Option<DragEvent>)
        requires
            old(self).handles_in_range(PointerEvent::Move { screen_x, screen_y }),
        ensures
            (final(self).current_state(), r) == old(self).after_move(screen_x, screen_y),
            final(self).cursor() == (screen_x, screen_y),
            final(self).same_setup(old(self)),
    {
        let pos = (screen_x, screen_y);
        self.cursor = pos;
        let next: Option<(DragState, Option<DragEvent>)> = match &self.drag_state {
            DragState::Idle => None,
            DragState::MouseDown { pos: start_pos, window } => {
                let dx = screen_x as i64 - start_pos.0 as i64;
                let dy = screen_y as i64 - start_pos.1 as i64;
                let adx = if dx < 0 {
                    -dx
                } else {
                    dx
                };
                let ady = if dy < 0 {
                    -dy
                } else {
                    dy
                };
                let threshold = self.drag_threshold as i64;
                if adx > threshold || ady > threshold {
                    match window {
                        Some(win) => Some(
                            (
                                DragState::Dragging {
                                    start_pos: (start_pos.0, start_pos.1),
                                    current_pos: pos,
                                    window: win.clone(),
                                },
                                None,
                            ),
                        ),
                        None => None,
                    }
                } else {
                    None
                }
            },
            DragState::Dragging { start_pos, window, .. } => {
                match self.edge_detector.detect_edge_crossing(screen_x, screen_y) {
                    Some((target_device, direction)) => {
                        let target_pos = self.landing_exec(
                            screen_x,
                            screen_y,
                            target_device,
                            direction,
                        );
                        Some(
                            (
                                DragState::EdgeCrossing {
                                    target_device,
                                    direction,
                                    window: window.clone(),
                                    cursor_pos: pos,
                                },
                                Some(
                                    DragEvent::WindowCrossingEdge {
                                        window: window.clone(),
                                        target_device,
                                        direction,
                                        target_position: target_pos,
                                    },
                                ),
                            ),
                        )
                    },
                    None => Some(
                        (
                            DragState::Dragging {
                                start_pos: (start_pos.0, start_pos.1),
                                current_pos: pos,
                                window: window.clone(),
                            },
                            Some(DragEvent::WindowDragging { window: window.clone(), position: pos }),
                        ),
                    ),
                }
            },
            DragState::EdgeCrossing { target_device, direction, window, .. } => {
                let target_pos = self.landing_exec(screen_x, screen_y, *target_device, *direction);
                return Some(
                    DragEvent::WindowCrossingEdge {
                        window: window.clone(),
                        target_device: *target_device,
                        direction: *direction,
                        target_position: target_pos,
                    },
                );
            },
        };
        match next {
            Some((state, event)) => {
                self.drag_state = state;
                event
            },
            None => None,
        }
    }

    fn handle_mouse_up(&mut self) -> (r: Option<DragEvent>)
        ensures
            (final(self).current_state(), r) == after_release(old(self).current_state()),
            final(self).cursor() == old(self).cursor(),
            final(self).same_setup(old(self)),
    {
        let mut state = DragState::Idle;
        std::mem::swap(&mut state, &mut self.drag_state);
        match state {
            DragState::Dragging { window, current_pos, .. } => Some(
                DragEvent::WindowDropped { window, position: current_pos },
            ),
            DragState::EdgeCrossing { window, .. } => Some(
                DragEvent::WindowDropped { window, position: (0, 0) },
            ),
            _ => None,
        }
    }

    /// Records a press on `window` at `pos`.
    pub fn start_drag(&mut self, pos: (i32, i32), window: WindowInfo)
        ensures
            final(self).current_state() == (DragState::MouseDown { pos, window: Some(window) }),
            final(self).cursor() == old(self).cursor(),
            final(self).same_setup(old(self)),
    {
        self.drag_state = DragState::MouseDown { pos, window: Some(window) };
    }

    pub fn state(&self) -> (s: &DragState)
        ensures
            *s == self.current_state(),
    {
        &self.drag_state
    }
}

/// Releasing the left button always ends the drag.
pub proof fn lemma_release_ends_drag(d: WindowDragDetector, window: Option<WindowInfo>)
    ensures
        d.after_event(PointerEvent::ButtonUp(MouseButton::Left), window).0 == DragState::Idle,
{
}

/// While dragging, a move that crosses no edge follows the cursor: the
/// drag goes on from the same start with the cursor's new position, that
/// position is reported, and a release right after drops the window there.
pub proof fn lemma_drag_follows_cursor(
    d: WindowDragDetector,
    start: (i32, i32),
    current: (i32, i32),
    window: WindowInfo,
    x: i32,
    y: i32,
    under: Option<WindowInfo>,
)
    requires
        d.current_state() == (DragState::Dragging { start_pos: start, current_pos: current, window }),
        d.crossing_at(x, y) is None,
    ensures
        d.after_event(PointerEvent::Move { screen_x: x, screen_y: y }, under) == (
            DragState::Dragging { start_pos: start, current_pos: (x, y), window },
            Some(DragEvent::WindowDragging { window, position: (x, y) }),
        ),
        after_release(d.after_event(PointerEvent::Move { screen_x: x, screen_y: y }, under).0) == (
            DragState::Idle,
            Some(DragEvent::WindowDropped { window, position: (x, y) }),
        ),
{
}

/// While dragging, a move that reaches an edge next to another device
/// turns the drag into a crossing towards it at the cursor, and reports
/// where the cursor lands there; a release then drops the window at
/// `(0, 0)`.
pub proof fn lemma_drag_crosses_at_edge(
    d: WindowDragDetector,
    start: (i32, i32),
    current: (i32, i32),
    window: WindowInfo,
    x: i32,
    y: i32,
    target: DeviceId,
    dir: Direction,
    under: Option<WindowInfo>,
)
    requires
        d.current_state() == (DragState::Dragging { start_pos: start, current_pos: current, window }),
        d.crossing_at(x, y) == Some((target, dir)),
    ensures
        d.after_event(PointerEvent::Move { screen_x: x, screen_y: y }, under) == (
            DragState::EdgeCrossing {
                target_device: target,
                direction: dir,
                window,
                cursor_pos: (x, y),
            },
            Some(
                DragEvent::WindowCrossingEdge {
                    window,
                    target_device: target,
                    direction: dir,
                    target_position: d.landing_at(x, y, target, dir),
                },
            ),
        ),
        after_release(d.after_event(PointerEvent::Move { screen_x: x, screen_y: y }, under).0) == (
            DragState::Idle,
            Some(DragEvent::WindowDropped { window, position: (0i32, 0i32) }),
        ),
{
}

/// Releasing the left button drops a dragged window where the cursor was,
/// drops a window that was crossing an edge at `(0, 0)`, and reports
/// nothing otherwise; the drag is over in every case.
pub proof fn lemma_release_drops_window(d: WindowDragDetector, under: Option<WindowInfo>)
    ensures
        d.after_event(PointerEvent::ButtonUp(MouseButton::Left), under) == match d.current_state() {
            DragState::Dragging { window, current_pos, .. } => (
                DragState::Idle,
                Some(DragEvent::WindowDropped { window, position: current_pos }),
            ),
            DragState::EdgeCrossing { window, .. } => (
                DragState::Idle,
                Some(DragEvent::WindowDropped { window, position: (0i32, 0i32) }),
            ),
            DragState::Idle | DragState::MouseDown { .. } => (DragState::Idle, None::<DragEvent>),
        },
{
}

/// Pressing the left button arms a possible drag of the window under the
/// cursor, at the cursor, whatever was under way, and reports nothing.
pub proof fn lemma_press_arms_drag(d: WindowDragDetector, window: Option<WindowInfo>)
    ensures
        d.after_event(PointerEvent::ButtonDown(MouseButton::Left), window) == (
            DragState::MouseDown { pos: d.cursor(), window },
            None::<DragEvent>,
        ),
{
}

/// With no drag under way, input other than a left press reports nothing
/// and changes nothing.
pub proof fn lemma_idle_is_quiet(d: WindowDragDetector, event: PointerEvent, window: Option<WindowInfo>)
    requires
        d.current_state() == DragState::Idle,
        event != PointerEvent::ButtonDown(MouseButton::Left),
    ensures
        d.after_event(event, window) == (DragState::Idle, None::<DragEvent>),
{
}

/// A press on a window, a move beyond the drag threshold and a release
/// drop that window where the cursor was moved to.
pub proof fn lemma_press_move_release_drops(
    d: WindowDragDetector,
    start: (i32, i32),
    window: WindowInfo,
    x: i32,
    y: i32,
)
    requires
        d.current_state() == (DragState::MouseDown { pos: start, window: Some(window) }),
        moved_beyond(start, (x, y), d.threshold()),
    ensures
        d.after_move(x, y).0 == (DragState::Dragging {
            start_pos: start,
            current_pos: (x, y),
            window,
        }),
        after_release(d.after_move(x, y).0) == (DragState::Idle, Some(
            DragEvent::WindowDropped { window, position: (x, y) },
        )),
{
}

/// A move that stays within the drag threshold of the press starts no
/// drag.
pub proof fn lemma_small_move_keeps_press(
    d: WindowDragDetector,
    start: (i32, i32),
    window: Option<WindowInfo>,
    x: i32,
    y: i32,
)
    requires
        d.current_state() == (DragState::MouseDown { pos: start, window }),
        !moved_beyond(start, (x, y), d.threshold()),
    ensures
        d.after_move(x, y) == (d.current_state(), None::<DragEvent>),
{
}

/// Every event the drag reports carries the window being dragged.
pub proof fn lemma_events_carry_window(
    d: WindowDragDetector,
    event: PointerEvent,
    under: Option<WindowInfo>,
)
    requires
        d.after_event(event, under).1 is Some,
    ensures
        match d.current_state() {
            DragState::Dragging { window, .. } | DragState::EdgeCrossing { window, .. } => match d.after_event(
                event,
                under,
            ).1->Some_0 {
                DragEvent::WindowDragging { window: w, .. } => w == window,
                DragEvent::WindowCrossingEdge { window: w, .. } => w == window,
                DragEvent::WindowDropped { window: w, .. } => w == window,
            },
            _ => false,
        },
{
}

} // verus!
