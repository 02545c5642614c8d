use vstd::prelude::*;

verus! {

/// One full turn, in millionths of a degree.
pub const FULL_TURN: i64 = 360_000_000;

/// Largest pitch magnitude (89 degrees): the camera never looks straight up
/// or down, so the view's up vector never lines up with the view direction.
pub const PITCH_LIMIT: i64 = 89_000_000;

/// Orbit angle per pixel of pointer travel (a quarter of a degree).
pub const ORBIT_SENSITIVITY: i64 = 250_000;

/// Closest the eye may come to the orbit centre (half a world unit).
pub const MIN_DISTANCE: i64 = 500_000;

/// Farthest the eye may move from the orbit centre (fifty world units).
pub const MAX_DISTANCE: i64 = 50_000_000;

/// Distance of a freshly made camera (five world units).
pub const DEFAULT_DISTANCE: i64 = 5_000_000;

/// Pitch of a freshly made camera (looking twenty degrees down).
pub const DEFAULT_PITCH: i64 = 20_000_000;

/// Yaw of a freshly made camera (forty-five degrees).
pub const DEFAULT_YAW: i64 = 45_000_000;

/// Pixels of pan drag that move the orbit centre by one eye distance.
pub const PAN_PIXELS_PER_DISTANCE: i64 = 1000;

/// Largest magnitude of either pan component (a thousand world units).
pub const PAN_LIMIT: i64 = 1_000_000_000;

/// A position in window pixels.
#[derive(Clone, Copy, Debug, PartialEq, Eq, Structural)]
pub struct Pixel {
    pub x: i32,
    pub y: i32,
}

/// A point in world space, in millionths of a world unit.
#[derive(Clone, Copy, Debug, PartialEq, Eq, Structural)]
pub struct Point3 {
    pub x: i64,
    pub y: i64,
    pub z: i64,
}

/// Translation of the orbit centre in the view plane, in millionths of a
/// world unit: `right` along the camera's right axis, `up` along its up axis.
#[derive(Clone, Copy, Debug, PartialEq, Eq, Structural)]
pub struct PanOffset {
    pub right: i64,
    pub up: i64,
}

/// An input event, as far as the camera cares.
#[derive(Clone, Copy, Debug, PartialEq, Eq, Structural)]
pub enum CameraEvent {
    /// The drag button went down with the pointer at the given position.
    PointerPressed { x: i32, y: i32 },
    /// The drag button went up.
    PointerReleased,
    /// The pointer moved to the given position.
    PointerMoved { x: i32, y: i32 },
    /// The wheel turned: negative steps zoom in, positive steps zoom out.
    Scroll { steps: i32 },
    /// The pan modifier key is now held or no longer held.
    PanModifier { held: bool },
    /// Any other input: the camera ignores it.
    Other,
}

/// Orbit camera state.
///
/// The eye sits `distance` away from `target` moved by `pan`, in the
/// direction given by `yaw` (about the world up axis) and `pitch`
/// (elevation). `last_cursor` is the pointer position of the drag in
/// progress, `None` when no drag is in progress.
#[derive(Clone, Copy, Debug, PartialEq, Eq, Structural)]
pub struct CameraState {
    pub target: Point3,
    pub distance: i64,
    pub yaw: i64,
    pub pitch: i64,
    pub pan: PanOffset,
    pub last_cursor: Option<Pixel>,
    pub pan_held: bool,
}

pub open spec fn clamp(v: int, lo: int, hi: int) -> int {
    if v < lo {
        lo
    } else if v > hi {
        hi
    } else {
        v
    }
}

/// An angle brought into `[0, FULL_TURN)`.
pub open spec fn wrap_turn(a: int) -> int {
    a % (FULL_TURN as int)
}

/// Pan travel for `delta` pixels at eye distance `d`, rounded toward zero.
pub open spec fn pan_travel(delta: int, d: int) -> int {
    if delta >= 0 {
        (delta * d) / (PAN_PIXELS_PER_DISTANCE as int)
    } else {
        -(((-delta) * d) / (PAN_PIXELS_PER_DISTANCE as int))
    }
}

/// One zoom-in step, unclamped: nine tenths, rounded down.
pub open spec fn shrink_once(d: int) -> int {
    d * 9 / 10
}

/// One zoom-out step, unclamped: ten ninths, rounded down.
pub open spec fn grow_once(d: int) -> int {
    d * 10 / 9
}

pub open spec fn zoom_in_once(d: int) -> int {
    if shrink_once(d) < MIN_DISTANCE {
        MIN_DISTANCE as int
    } else {
        shrink_once(d)
    }
}

pub open spec fn zoom_out_once(d: int) -> int {
    if grow_once(d) > MAX_DISTANCE {
        MAX_DISTANCE as int
    } else {
        grow_once(d)
    }
}

/// Distance after `steps` wheel steps from `d`, each one clamped.
pub open spec fn zoomed(d: int, steps: int) -> int
    decreases (if steps < 0 { -steps } else { steps }),
{
    if steps < 0 {
        zoomed(zoom_in_once(d), steps + 1)
    } else if steps > 0 {
        zoomed(zoom_out_once(d), steps - 1)
    } else {
        d
    }
}

/// `n` zoom-in steps from `d`, with no lower bound.
pub open spec fn shrunk(d: int, n: nat) -> int
    decreases n,
{
    if n == 0 {
        d
    } else {
        shrunk(shrink_once(d), (n - 1) as nat)
    }
}

/// Camera after an orbit drag of `(dx, dy)` pixels.
pub open spec fn orbited(s: CameraState, dx: int, dy: int) -> CameraState {
    CameraState {
        yaw: wrap_turn(s.yaw + dx * ORBIT_SENSITIVITY) as i64,
        pitch: clamp(s.pitch - dy * ORBIT_SENSITIVITY, -PITCH_LIMIT, PITCH_LIMIT as int) as i64,
        ..s
    }
}

/// Camera after a pan drag of `(dx, dy)` pixels: the centre moves against the
/// drag horizontally and with it vertically (window y grows downward), so the
/// scene follows the pointer.
pub open spec fn panned(s: CameraState, dx: int, dy: int) -> CameraState {
    CameraState {
        pan: PanOffset {
            right: clamp(s.pan.right - pan_travel(dx, s.distance as int), -PAN_LIMIT, PAN_LIMIT as int) as i64,
            up: clamp(s.pan.up + pan_travel(dy, s.distance as int), -PAN_LIMIT, PAN_LIMIT as int) as i64,
        },
        ..s
    }
}

/// Camera after a pointer move to `(x, y)`.
pub open spec fn moved(s: CameraState, x: i32, y: i32) -> CameraState {
    match s.last_cursor {
        None => s,
        Some(p) => {
            let dx = x - p.x;
            let dy = y - p.y;
            let t = if s.pan_held { panned(s, dx, dy) } else { orbited(s, dx, dy) };
            CameraState { last_cursor: Some(Pixel { x, y }), ..t }
        },
    }
}

/// The camera after one event.
pub open spec fn step(s: CameraState, e: CameraEvent) -> CameraState {
    match e {
        CameraEvent::PointerPressed { x, y } => CameraState { last_cursor: Some(Pixel { x, y }), ..s },
        CameraEvent::PointerReleased => CameraState { last_cursor: None, ..s },
        CameraEvent::PointerMoved { x, y } => moved(s, x, y),
        CameraEvent::Scroll { steps } => CameraState { distance: zoomed(s.distance as int, steps as int) as i64, ..s },
        CameraEvent::PanModifier { held } => CameraState { pan_held: held, ..s },
        CameraEvent::Other => s,
    }
}

/// The camera after a sequence of events, applied in order.
pub open spec fn run(s: CameraState, events: Seq<CameraEvent>) -> CameraState
    decreases events.len(),
{
    if events.len() == 0 {
        s
    } else {
        run(step(s, events[0]), events.drop_first())
    }
}

impl CameraState {
    /// Every state the camera can reach: distance and pitch inside their
    /// clamps, yaw within one turn, pan inside its bounds.
    pub open spec fn wf(&self) -> bool {
        &&& MIN_DISTANCE <= self.distance <= MAX_DISTANCE
        &&& -PITCH_LIMIT <= self.pitch <= PITCH_LIMIT
        &&& 0 <= self.yaw < FULL_TURN
        &&& -PAN_LIMIT <= self.pan.right <= PAN_LIMIT
        &&& -PAN_LIMIT <= self.pan.up <= PAN_LIMIT
    }

    /// A camera at the default distance and angles, orbiting the origin,
    /// with no pan, no drag in progress and the pan modifier released.
    pub fn new() -> (r: CameraState)
        ensures
            r.wf(),
            r.target == (Point3 { x: 0, y: 0, z: 0 }),
            r.distance == DEFAULT_DISTANCE,
            r.yaw == DEFAULT_YAW,
            r.pitch == DEFAULT_PITCH,
            r.pan == (PanOffset { right: 0, up: 0 }),
            r.last_cursor.is_none(),
            !r.pan_held,
    {
        CameraState::with_orbit(DEFAULT_DISTANCE, DEFAULT_YAW, DEFAULT_PITCH)
    }

    /// A camera orbiting the origin with the given distance and angles,
    /// brought into range: distance and pitch clamped, yaw wrapped into one
    /// turn. No pan, no drag in progress, pan modifier released.
    pub fn with_orbit(distance: i64, yaw: i64, pitch: i64) -> (r: CameraState)
        ensures
            r.wf(),
            r.target == (Point3 { x: 0, y: 0, z: 0 }),
            r.distance == clamp(distance as int, MIN_DISTANCE as int, MAX_DISTANCE as int),
            r.yaw == wrap_turn(yaw as int),
            r.pitch == clamp(pitch as int, -PITCH_LIMIT, PITCH_LIMIT as int),
            r.pan == (PanOffset { right: 0, up: 0 }),
            r.last_cursor.is_none(),
            !r.pan_held,
    {
        CameraState {
            target: Point3 { x: 0, y: 0, z: 0 },
            distance: clamp_i64(distance, MIN_DISTANCE, MAX_DISTANCE),
            yaw: wrap_angle(yaw),
            pitch: clamp_i64(pitch, -PITCH_LIMIT, PITCH_LIMIT),
            pan: PanOffset { right: 0, up: 0 },
            last_cursor: None,
            pan_held: false,
        }
    }

    /// Applies one input event.
    pub fn update(&mut self, event: CameraEvent)
        requires
            old(self).wf(),
        ensures
            *final(self) == step(*old(self), event),
            final(self).wf(),
    {
        match event {
            CameraEvent::PointerPressed { x, y } => {
                self.last_cursor = Some(Pixel { x, y });
            },
            CameraEvent::PointerReleased => {
                self.last_cursor = None;
            },
            CameraEvent::PointerMoved { x, y } => {
                match self.last_cursor {
                    None => {},
                    Some(p) => {
                        let dx: i64 = x as i64 - p.x as i64;
                        let dy: i64 = y as i64 - p.y as i64;
                        if self.pan_held {
                            self.pan_by(dx, dy);
                        } else {
                            self.orbit_by(dx, dy);
                        }
                        self.last_cursor = Some(Pixel { x, y });
                    },
                }
            },
            CameraEvent::Scroll { steps } => {
                self.distance = zoom(self.distance, steps);
            },
            CameraEvent::PanModifier { held } => {
                self.pan_held = held;
            },
            CameraEvent::Other => {},
        }
    }

    fn orbit_by(&mut self, dx: i64, dy: i64)
        requires
            old(self).wf(),
            -0x1_0000_0000 <= dx <= 0x1_0000_0000,
            -0x1_0000_0000 <= dy <= 0x1_0000_0000,
        ensures
            *final(self) == orbited(*old(self), dx as int, dy as int),
    {
        self.yaw = wrap_angle(self.yaw + dx * ORBIT_SENSITIVITY);
        self.pitch = clamp_i64(self.pitch - dy * ORBIT_SENSITIVITY, -PITCH_LIMIT, PITCH_LIMIT);
    }

    fn pan_by(&mut self, dx: i64, dy: i64)
        requires
            old(self).wf(),
            -0x1_0000_0000 <= dx <= 0x1_0000_0000,
            -0x1_0000_0000 <= dy <= 0x1_0000_0000,
        ensures
            *final(self) == panned(*old(self), dx as int, dy as int),
    {
        let tr = travel(dx, self.distance);
        let tu = travel(dy, self.distance);
        self.pan = PanOffset {
            right: clamp_i64(self.pan.right - tr, -PAN_LIMIT, PAN_LIMIT),
            up: clamp_i64(self.pan.up + tu, -PAN_LIMIT, PAN_LIMIT),
        };
    }
}

fn clamp_i64(v: i64, lo: i64, hi: i64) -> (r: i64)
    requires
        lo <= hi,
    ensures
        r == clamp(v as int, lo as int, hi as int),
{
    if v < lo {
        lo
    } else if v > hi {
        hi
    } else {
        v
    }
}

fn wrap_angle(a: i64) -> (r: i64)
    ensures
        r == wrap_turn(a as int),
        0 <= r < FULL_TURN,
{
    let m = a % FULL_TURN;
    if m < 0 {
        m + FULL_TURN
    } else {
        m
    }
}

fn travel(delta: i64, d: i64) -> (r: i64)
    requires
        -0x1_0000_0000 <= delta <= 0x1_0000_0000,
        0 <= d <= MAX_DISTANCE,
    ensures
        r == pan_travel(delta as int, d as int),
        -0x1_0000_0000 * MAX_DISTANCE <= r <= 0x1_0000_0000 * MAX_DISTANCE,
{
    assert(0 <= (if delta >= 0 { delta as int } else { -delta }) * d <= 0x1_0000_0000 * MAX_DISTANCE)
        by (nonlinear_arith)
        requires
            -0x1_0000_0000 <= delta <= 0x1_0000_0000,
            0 <= d <= MAX_DISTANCE,
    ;
    if delta >= 0 {
        delta * d / PAN_PIXELS_PER_DISTANCE
    } else {
        -((-delta) * d / PAN_PIXELS_PER_DISTANCE)
    }
}

proof fn lemma_zoom_in_floor(n: int)
    requires
        n <= 0,
    ensures
        zoomed(MIN_DISTANCE as int, n) == MIN_DISTANCE,
    decreases -n,
{
    if n < 0 {
        lemma_zoom_in_floor(n + 1);
    }
}

proof fn lemma_zoom_out_ceiling(n: int)
    requires
        n >= 0,
    ensures
        zoomed(MAX_DISTANCE as int, n) == MAX_DISTANCE,
    decreases n,
{
    if n > 0 {
        lemma_zoom_out_ceiling(n - 1);
    }
}

/// Distance after `steps` wheel steps: each step in takes nine tenths of the
/// distance, each step out ten ninths (both rounded down), and the result of
/// every step is clamped to `[MIN_DISTANCE, MAX_DISTANCE]`.
fn zoom(d: i64, steps: i32) -> (r: i64)
    requires
        MIN_DISTANCE <= d <= MAX_DISTANCE,
    ensures
        r == zoomed(d as int, steps as int),
        MIN_DISTANCE <= r <= MAX_DISTANCE,
{
    let mut cur: i64 = d;
    let mut left: i64 = steps as i64;
    while left != 0
        invariant
            MIN_DISTANCE <= cur <= MAX_DISTANCE,
            i32::MIN <= left <= i32::MAX,
            zoomed(cur as int, left as int) == zoomed(d as int, steps as int),
        decreases (if left < 0 { -left as int } else { left as int }),
    {
        if left < 0 {
            if cur == MIN_DISTANCE {
                proof {
                    lemma_zoom_in_floor(left as int);
                }
                left = 0;
            } else {
                let next = cur * 9 / 10;
                cur = if next < MIN_DISTANCE { MIN_DISTANCE } else { next };
                left = left + 1;
            }
        } else {
            if cur == MAX_DISTANCE {
                proof {
                    lemma_zoom_out_ceiling(left as int);
                }
                left = 0;
            } else {
                let next = cur * 10 / 9;
                cur = if next > MAX_DISTANCE { MAX_DISTANCE } else { next };
                left = left - 1;
            }
        }
    }
    cur
}

proof fn lemma_zoomed_in_range(d: int, n: int)
    requires
        MIN_DISTANCE <= d <= MAX_DISTANCE,
    ensures
        MIN_DISTANCE <= zoomed(d, n) <= MAX_DISTANCE,
    decreases (if n < 0 { -n } else { n }),
{
    if n < 0 {
        lemma_zoomed_in_range(zoom_in_once(d), n + 1);
    } else if n > 0 {
        lemma_zoomed_in_range(zoom_out_once(d), n - 1);
    }
}

/// Every event keeps the camera valid: distance stays within its clamps,
/// pitch within the pitch limit, yaw within one turn, pan within bounds.
pub proof fn lemma_step_keeps_wf(s: CameraState, e: CameraEvent)
    requires
        s.wf(),
    ensures
        step(s, e).wf(),
{
    if let CameraEvent::Scroll { steps } = e {
        lemma_zoomed_in_range(s.distance as int, steps as int);
    }
}

/// Whatever events arrive, in whatever order and number, the camera stays
/// valid: the distance never falls below `MIN_DISTANCE` and the pitch never
/// passes `PITCH_LIMIT` either way.
pub proof fn lemma_run_keeps_wf(s: CameraState, events: Seq<CameraEvent>)
    requires
        s.wf(),
    ensures
        run(s, events).wf(),
    decreases events.len(),
{
    if events.len() > 0 {
        lemma_step_keeps_wf(s, events[0]);
        lemma_run_keeps_wf(step(s, events[0]), events.drop_first());
    }
}

proof fn lemma_shrunk_not_above(d: int, n: nat)
    requires
        d >= 0,
    ensures
        0 <= shrunk(d, n) <= d,
    decreases n,
{
    if n > 0 {
        lemma_shrunk_not_above(shrink_once(d), (n - 1) as nat);
    }
}

/// `n` single zoom-in steps.
pub open spec fn scroll_in_events(n: nat) -> Seq<CameraEvent> {
    Seq::new(n, |i: int| CameraEvent::Scroll { steps: -1i32 })
}

/// Scrolling in one step at a time, `n` times, leaves the distance at the
/// unclamped result of `n` nine-tenths steps, or exactly at `MIN_DISTANCE`
/// where that would fall below it; nothing else about the camera changes.
pub proof fn lemma_scroll_in_settles_at_min(s: CameraState, n: nat)
    requires
        s.wf(),
    ensures
        run(s, scroll_in_events(n)) == (CameraState {
            distance: (if shrunk(s.distance as int, n) < MIN_DISTANCE {
                MIN_DISTANCE as int
            } else {
                shrunk(s.distance as int, n)
            }) as i64,
            ..s
        }),
        run(s, scroll_in_events(n)).distance >= MIN_DISTANCE,
    decreases n,
{
    if n == 0 {
        assert(run(s, scroll_in_events(n)) == s);
    } else {
        let evs = scroll_in_events(n);
        let t = step(s, evs[0]);
        assert(evs.drop_first() =~= scroll_in_events((n - 1) as nat));
        assert(evs[0] == CameraEvent::Scroll { steps: -1i32 });
        assert(zoomed(zoom_in_once(s.distance as int), 0) == zoom_in_once(s.distance as int));
        assert(t.distance == zoom_in_once(s.distance as int));
        lemma_step_keeps_wf(s, evs[0]);
        assert(run(s, evs) == run(t, evs.drop_first()));
        lemma_scroll_in_settles_at_min(t, (n - 1) as nat);
        if shrink_once(s.distance as int) < MIN_DISTANCE {
            lemma_shrunk_not_above(shrink_once(s.distance as int), (n - 1) as nat);
            lemma_shrunk_not_above(MIN_DISTANCE as int, (n - 1) as nat);
        }
    }
}

/// Pointer moves to the given positions, in order.
pub open spec fn moves_to(positions: Seq<Pixel>) -> Seq<CameraEvent> {
    positions.map_values(|p: Pixel| CameraEvent::PointerMoved { x: p.x, y: p.y })
}

/// A pointer move with no drag in progress changes nothing.
pub proof fn lemma_move_without_press(s: CameraState, x: i32, y: i32)
    requires
        s.last_cursor is None,
    ensures
        step(s, CameraEvent::PointerMoved { x, y }) == s,
{
}

/// Any number of pointer moves with no drag in progress change nothing: no
/// yaw, pitch or pan, and no drag starts.
pub proof fn lemma_moves_without_press(s: CameraState, positions: Seq<Pixel>)
    requires
        s.last_cursor is None,
    ensures
        run(s, moves_to(positions)) == s,
    decreases positions.len(),
{
    if positions.len() > 0 {
        assert(moves_to(positions).drop_first() =~= moves_to(positions.drop_first()));
        lemma_moves_without_press(s, positions.drop_first());
    }
}

/// One orbit drag move: yaw turns by the horizontal travel, pitch by the
/// vertical travel (pointer up looks up) clamped to the pitch limit, so a
/// move that would pass the limit leaves the pitch exactly on it.
pub proof fn lemma_orbit_move(s: CameraState, x: i32, y: i32)
    requires
        s.wf(),
        s.last_cursor is Some,
        !s.pan_held,
    ensures
        ({
            let p = s.last_cursor->0;
            let t = step(s, CameraEvent::PointerMoved { x, y });
            let want = s.pitch - (y - p.y) * ORBIT_SENSITIVITY;
            &&& t.yaw == wrap_turn(s.yaw + (x - p.x) * ORBIT_SENSITIVITY)
            &&& t.pitch == clamp(want, -PITCH_LIMIT, PITCH_LIMIT as int)
            &&& want >= PITCH_LIMIT ==> t.pitch == PITCH_LIMIT
            &&& want <= -PITCH_LIMIT ==> t.pitch == -PITCH_LIMIT
            &&& -PITCH_LIMIT <= t.pitch <= PITCH_LIMIT
            &&& t.distance == s.distance && t.pan == s.pan
            &&& t.last_cursor == Some(Pixel { x, y })
            &&& !t.pan_held
        }),
{
}

/// A drag that only moves the pointer up (or not at all) raises the pitch by
/// the whole vertical travel, up to the pitch limit and never past it.
pub proof fn lemma_upward_drag_pins_pitch(s: CameraState, positions: Seq<Pixel>)
    requires
        s.wf(),
        s.last_cursor is Some,
        !s.pan_held,
        positions.len() > 0,
        positions[0].y <= s.last_cursor->0.y,
        forall|i: int| 0 < i < positions.len() ==> #[trigger] positions[i].y <= positions[i - 1].y,
    ensures
        ({
            let travel = s.last_cursor->0.y - positions.last().y;
            let want = s.pitch + travel * ORBIT_SENSITIVITY;
            run(s, moves_to(positions)).pitch == (if want > PITCH_LIMIT {
                PITCH_LIMIT as int
            } else {
                want
            })
        }),
        positions.last().y <= s.last_cursor->0.y,
    decreases positions.len(),
{
    let evs = moves_to(positions);
    let t = step(s, evs[0]);
    assert(evs.drop_first() =~= moves_to(positions.drop_first()));
    assert(evs[0] == CameraEvent::PointerMoved { x: positions[0].x, y: positions[0].y });
    assert(run(s, evs) == run(t, evs.drop_first()));
    lemma_step_keeps_wf(s, evs[0]);
    if positions.len() == 1 {
        assert(positions.last() == positions[0]);
        assert(run(t, evs.drop_first()) == t);
    } else {
        let rest = positions.drop_first();
        assert(rest[0] == positions[1]);
        assert forall|i: int| 0 < i < rest.len() implies #[trigger] rest[i].y <= rest[i - 1].y by {
            assert(rest[i] == positions[i + 1]);
            assert(rest[i - 1] == positions[i]);
        }
        lemma_upward_drag_pins_pitch(t, rest);
        assert(rest.last() == positions.last());
    }
}

/// A drag that only moves the pointer down (or not at all) lowers the pitch
/// by the whole vertical travel, down to the pitch limit and never past it.
pub proof fn lemma_downward_drag_pins_pitch(s: CameraState, positions: Seq<Pixel>)
    requires
        s.wf(),
        s.last_cursor is Some,
        !s.pan_held,
        positions.len() > 0,
        positions[0].y >= s.last_cursor->0.y,
        forall|i: int| 0 < i < positions.len() ==> #[trigger] positions[i].y >= positions[i - 1].y,
    ensures
        ({
            let travel = positions.last().y - s.last_cursor->0.y;
            let want = s.pitch - travel * ORBIT_SENSITIVITY;
            run(s, moves_to(positions)).pitch == (if want < -PITCH_LIMIT {
                -PITCH_LIMIT as int
            } else {
                want
            })
        }),
        positions.last().y >= s.last_cursor->0.y,
    decreases positions.len(),
{
    let evs = moves_to(positions);
    let t = step(s, evs[0]);
    assert(evs.drop_first() =~= moves_to(positions.drop_first()));
    assert(evs[0] == CameraEvent::PointerMoved { x: positions[0].x, y: positions[0].y });
    assert(run(s, evs) == run(t, evs.drop_first()));
    lemma_step_keeps_wf(s, evs[0]);
    if positions.len() == 1 {
        assert(positions.last() == positions[0]);
        assert(run(t, evs.drop_first()) == t);
    } else {
        let rest = positions.drop_first();
        assert(rest[0] == positions[1]);
        assert forall|i: int| 0 < i < rest.len() implies #[trigger] rest[i].y >= rest[i - 1].y by {
            assert(rest[i] == positions[i + 1]);
            assert(rest[i - 1] == positions[i]);
        }
        lemma_downward_drag_pins_pitch(t, rest);
        assert(rest.last() == positions.last());
    }
}

} // verus!
