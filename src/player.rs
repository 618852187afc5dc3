use vstd::prelude::*;

use crate::geometry::{Vec3, UNIT, isqrt, is_root, isqrt_u64};

verus! {

/// Bound on the pitch either way, in millidegrees: just short of straight up or down,
/// so that the camera never flips over a pole.
pub const PITCH_LIMIT: i64 = 89_900;

/// Degrees turned per count of pointer motion, in millidegrees.
pub const DEFAULT_MOUSE_SENSITIVITY: u32 = 350;

/// Planar speed in world units per second.
pub const DEFAULT_MOVEMENT_SPEED: u32 = 240;

/// The physical keys that the controller distinguishes.
#[derive(Clone, Copy, Debug, PartialEq, Eq, Structural)]
pub enum KeyCode {
    KeyW,
    KeyS,
    KeyA,
    KeyD,
    Other,
}

/// An input event, as the host hands it over.
#[derive(Clone, Copy, Debug, PartialEq, Eq, Structural)]
pub enum InputEvent {
    /// Relative pointer motion, in counts.
    MouseMotion { dx: i32, dy: i32 },
    /// A key changed state.
    KeyboardInput { code: KeyCode, pressed: bool },
    /// Anything else; ignored.
    Other,
}

/// A weak reference to a scene node: a slot index and the generation of its occupant.
#[derive(Clone, Copy, Debug, PartialEq, Eq, Structural)]
pub struct NodeRef {
    pub index: u32,
    pub generation: u32,
}

/// What the camera reports before it is turned this tick: its forward and right vectors.
#[derive(Clone, Copy, Debug, PartialEq, Eq, Structural)]
pub struct CameraFrame {
    pub look: Vec3,
    pub side: Vec3,
}

/// The camera's new local rotation: a turn of `yaw` about the world vertical axis, then a
/// turn of `pitch` about the right axis that the yaw produced; both in millidegrees.
#[derive(Clone, Copy, Debug, PartialEq, Eq, Structural)]
pub struct Orientation {
    pub yaw: i64,
    pub pitch: i64,
}

/// What one tick asks the host to write: a camera rotation and a body velocity, each
/// absent where its target is.
#[derive(Clone, Copy, Debug, PartialEq, Eq, Structural)]
pub struct TickActions {
    pub camera_rotation: Option<Orientation>,
    pub linear_velocity: Option<Vec3>,
}

/// A first-person controller: the movement keys held, the look angles accumulated, and
/// the camera it turns.
#[derive(Clone, Copy, Debug)]
pub struct Player {
    move_forward: bool,
    move_backward: bool,
    move_left: bool,
    move_right: bool,
    yaw: i64,
    pitch: i64,
    camera: NodeRef,
    mouse_sensitivity: u32,
    movement_speed: u32,
}

/// The fields of a `Player` laid open, for a host that saves and restores it.
#[derive(Clone, Copy, Debug, PartialEq, Eq, Structural)]
pub struct PlayerState {
    pub move_forward: bool,
    pub move_backward: bool,
    pub move_left: bool,
    pub move_right: bool,
    pub yaw: i64,
    pub pitch: i64,
    pub camera: NodeRef,
    pub mouse_sensitivity: u32,
    pub movement_speed: u32,
}

/// The state of a `Player`, with the angles as mathematical integers.
pub struct PlayerView {
    pub move_forward: bool,
    pub move_backward: bool,
    pub move_left: bool,
    pub move_right: bool,
    pub yaw: int,
    pub pitch: int,
    pub camera: NodeRef,
    pub mouse_sensitivity: int,
    pub movement_speed: int,
}

impl View for Player {
    type V = PlayerView;

    closed spec fn view(&self) -> PlayerView {
        PlayerView {
            move_forward: self.move_forward,
            move_backward: self.move_backward,
            move_left: self.move_left,
            move_right: self.move_right,
            yaw: self.yaw as int,
            pitch: self.pitch as int,
            camera: self.camera,
            mouse_sensitivity: self.mouse_sensitivity as int,
            movement_speed: self.movement_speed as int,
        }
    }
}

pub open spec fn clamp_pitch(p: int) -> int {
    if p < -PITCH_LIMIT {
        -PITCH_LIMIT as int
    } else if p > PITCH_LIMIT {
        PITCH_LIMIT as int
    } else {
        p
    }
}

/// The state after one input event: motion turns the angles (pitch clamped, yaw not), a
/// movement key sets its flag to whether it is pressed, anything else changes nothing.
pub open spec fn step(v: PlayerView, e: InputEvent) -> PlayerView {
    match e {
        InputEvent::MouseMotion { dx, dy } => PlayerView {
            pitch: clamp_pitch(v.pitch + dy * v.mouse_sensitivity),
            yaw: v.yaw - dx * v.mouse_sensitivity,
            ..v
        },
        InputEvent::KeyboardInput { code, pressed } => match code {
            KeyCode::KeyW => PlayerView { move_forward: pressed, ..v },
            KeyCode::KeyS => PlayerView { move_backward: pressed, ..v },
            KeyCode::KeyA => PlayerView { move_left: pressed, ..v },
            KeyCode::KeyD => PlayerView { move_right: pressed, ..v },
            KeyCode::Other => v,
        },
        InputEvent::Other => v,
    }
}

/// The state after a sequence of input events, taken in order.
pub open spec fn run(v: PlayerView, events: Seq<InputEvent>) -> PlayerView
    decreases events.len(),
{
    if events.len() == 0 {
        v
    } else {
        run(step(v, events[0]), events.drop_first())
    }
}

/// The sum of the horizontal pointer motion in a sequence of events.
pub open spec fn total_dx(events: Seq<InputEvent>) -> int
    decreases events.len(),
{
    if events.len() == 0 {
        0
    } else {
        let rest = total_dx(events.drop_first());
        match events[0] {
            InputEvent::MouseMotion { dx, dy } => dx + rest,
            _ => rest,
        }
    }
}

/// `c` where `pos` is held, `-c` where `neg` is, their sum where both are.
pub open spec fn axis(pos: bool, neg: bool, c: int) -> int {
    (if pos { c } else { 0 }) - (if neg { c } else { 0 })
}

/// The raw movement direction: forward and back along `look`, left and right along `side`.
pub open spec fn direction(v: PlayerView, look: Vec3, side: Vec3) -> (int, int, int) {
    (
        axis(v.move_forward, v.move_backward, look.x as int) + axis(v.move_left, v.move_right, side.x as int),
        axis(v.move_forward, v.move_backward, look.y as int) + axis(v.move_left, v.move_right, side.y as int),
        axis(v.move_forward, v.move_backward, look.z as int) + axis(v.move_left, v.move_right, side.z as int),
    )
}

pub open spec fn length_squared(d: (int, int, int)) -> int {
    d.0 * d.0 + d.1 * d.1 + d.2 * d.2
}

/// `c * scale / len`, rounded toward zero.
pub open spec fn scaled(c: int, scale: int, len: int) -> int {
    if c >= 0 {
        c * scale / len
    } else {
        -((-c) * scale / len)
    }
}

/// The new velocity: the direction normalised and scaled to `scale` in the horizontal
/// components, `y` kept; a zero direction stops the body in the plane.
pub open spec fn planar_velocity(d: (int, int, int), scale: int, y: int) -> (int, int, int) {
    if d == (0int, 0int, 0int) {
        (0, y, 0)
    } else {
        let n = isqrt(length_squared(d));
        (scaled(d.0, scale, n), y, scaled(d.2, scale, n))
    }
}

pub open spec fn triple(v: Vec3) -> (int, int, int) {
    (v.x as int, v.y as int, v.z as int)
}

/// The forward vector that a tick moves along; zero when the camera did not resolve.
pub open spec fn look_of(camera: Option<CameraFrame>) -> Vec3 {
    match camera {
        Some(c) => c.look,
        None => Vec3 { x: 0, y: 0, z: 0 },
    }
}

/// The right vector that a tick moves along; zero when the camera did not resolve.
pub open spec fn side_of(camera: Option<CameraFrame>) -> Vec3 {
    match camera {
        Some(c) => c.side,
        None => Vec3 { x: 0, y: 0, z: 0 },
    }
}

pub open spec fn frame_within_unit(camera: Option<CameraFrame>) -> bool {
    look_of(camera).within_unit() && side_of(camera).within_unit()
}

pub open spec fn fits_i64(x: int) -> bool {
    i64::MIN <= x <= i64::MAX
}

impl Player {
    /// The pitch stays within its limits.
    pub open spec fn wf(&self) -> bool {
        -PITCH_LIMIT <= self@.pitch <= PITCH_LIMIT
    }

    /// The event's effect on the yaw stays within the range of its counter.
    pub open spec fn fits_event(&self, e: InputEvent) -> bool {
        match e {
            InputEvent::MouseMotion { dx, dy } => fits_i64(self@.yaw - dx * self@.mouse_sensitivity),
            _ => true,
        }
    }

    /// The speed scaled by the elapsed time stays within the range of a velocity component.
    pub open spec fn fits_tick(&self, dt_us: u32) -> bool {
        self@.movement_speed * dt_us <= i64::MAX
    }
}


impl Player {
    /// Applies one input event: pointer motion turns the view, a movement key sets its flag.
    pub fn on_os_event(&mut self, event: &InputEvent)
        requires
            old(self).wf(),
            old(self).fits_event(*event),
        ensures
            final(self).wf(),
            final(self)@ == step(old(self)@, *event),
    {
        match *event {
            InputEvent::MouseMotion { dx, dy } => {
                let sens = self.mouse_sensitivity as i128;
                proof {
                    lemma_turn_bound(dx as int, self.mouse_sensitivity as int);
                    lemma_turn_bound(dy as int, self.mouse_sensitivity as int);
                }
                let raw: i128 = self.pitch as i128 + dy as i128 * sens;
                let pitch: i128 = if raw < -(PITCH_LIMIT as i128) {
                    -(PITCH_LIMIT as i128)
                } else if raw > PITCH_LIMIT as i128 {
                    PITCH_LIMIT as i128
                } else {
                    raw
                };
                let yaw: i128 = self.yaw as i128 - dx as i128 * sens;
                self.pitch = pitch as i64;
                self.yaw = yaw as i64;
            },
            InputEvent::KeyboardInput { code, pressed } => {
                match code {
                    KeyCode::KeyW => {
                        self.move_forward = pressed;
                    },
                    KeyCode::KeyS => {
                        self.move_backward = pressed;
                    },
                    KeyCode::KeyA => {
                        self.move_left = pressed;
                    },
                    KeyCode::KeyD => {
                        self.move_right = pressed;
                    },
                    KeyCode::Other => {},
                }
            },
            InputEvent::Other => {},
        }
    }

    /// Whether `on_os_event` can take `event`: its turn keeps the yaw within range.
    pub fn accepts_event(&self, event: &InputEvent) -> (r: bool)
        ensures
            r == self.fits_event(*event),
    {
        match *event {
            InputEvent::MouseMotion { dx, dy } => {
                proof {
                    lemma_turn_bound(dx as int, self.mouse_sensitivity as int);
                }
                let yaw: i128 = self.yaw as i128 - dx as i128 * self.mouse_sensitivity as i128;
                i64::MIN as i128 <= yaw && yaw <= i64::MAX as i128
            },
            _ => true,
        }
    }

    /// One simulation step. `camera` is the camera's frame, absent where its reference did
    /// not resolve; `body_velocity` is the body's linear velocity, absent where the node is
    /// no rigid body; `dt_us` is the elapsed time in microseconds. The movement direction
    /// comes from the frame read before this tick's rotation is written.
    pub fn on_update(&self, camera: Option<CameraFrame>, body_velocity: Option<Vec3>, dt_us: u32) -> (r: TickActions)
        requires
            frame_within_unit(camera),
            self.fits_tick(dt_us),
        ensures
            camera is None ==> r.camera_rotation is None,
            camera is Some ==> {
                &&& r.camera_rotation is Some
                &&& r.camera_rotation.unwrap().yaw == self@.yaw
                &&& r.camera_rotation.unwrap().pitch == self@.pitch
            },
            body_velocity is None ==> r.linear_velocity is None,
            body_velocity is Some ==> {
                &&& r.linear_velocity is Some
                &&& triple(r.linear_velocity.unwrap()) == planar_velocity(
                    direction(self@, look_of(camera), side_of(camera)),
                    self@.movement_speed * dt_us,
                    body_velocity.unwrap().y as int,
                )
            },
    {
        let (look, side, camera_rotation) = match camera {
            Some(frame) => (frame.look, frame.side, Some(Orientation { yaw: self.yaw, pitch: self.pitch })),
            None => (Vec3::zero(), Vec3::zero(), None),
        };
        let linear_velocity = match body_velocity {
            Some(v) => {
                let scale: u64 = self.movement_speed as u64 * dt_us as u64;
                Some(self.velocity(look, side, scale, v.y))
            },
            None => None,
        };
        TickActions { camera_rotation, linear_velocity }
    }

    /// The body's new velocity for the keys held, given the camera's vectors.
    fn velocity(&self, look: Vec3, side: Vec3, scale: u64, y: i64) -> (r: Vec3)
        requires
            look.within_unit(),
            side.within_unit(),
            scale <= i64::MAX,
        ensures
            triple(r) == planar_velocity(direction(self@, look, side), scale as int, y as int),
    {
        let dx: i64 = axis_of(self.move_forward, self.move_backward, look.x) + axis_of(
            self.move_left,
            self.move_right,
            side.x,
        );
        let dy: i64 = axis_of(self.move_forward, self.move_backward, look.y) + axis_of(
            self.move_left,
            self.move_right,
            side.y,
        );
        let dz: i64 = axis_of(self.move_forward, self.move_backward, look.z) + axis_of(
            self.move_left,
            self.move_right,
            side.z,
        );
        let ghost d = (dx as int, dy as int, dz as int);
        assert(d == direction(self@, look, side));
        if dx == 0 && dy == 0 && dz == 0 {
            return Vec3::new(0, y, 0);
        }
        proof {
            lemma_square_bound(dx as int);
            lemma_square_bound(dy as int);
            lemma_square_bound(dz as int);
        }
        let m: u64 = (dx * dx) as u64 + (dy * dy) as u64 + (dz * dz) as u64;
        assert(m as int == length_squared(d));
        let n: u64 = isqrt_u64(m);
        proof {
            lemma_component_within_root(dx as int, m as int, n as int);
            lemma_component_within_root(dz as int, m as int, n as int);
            assert(dx * dx + dy * dy + dz * dz >= 1) by (nonlinear_arith)
                requires
                    dx != 0 || dy != 0 || dz != 0,
            ;
            assert(m >= 1);
            assert(m >= 1);
            assert(n >= 1) by (nonlinear_arith)
                requires
                    m >= 1,
                    m < (n + 1) * (n + 1),
                    n >= 0,
            ;
        }
        Vec3::new(scale_component(dx, scale, n), y, scale_component(dz, scale, n))
    }
}

/// `c` where `pos` is held, `-c` where `neg` is.
fn axis_of(pos: bool, neg: bool, c: i64) -> (r: i64)
    requires
        -UNIT <= c <= UNIT,
    ensures
        r == axis(pos, neg, c as int),
        -UNIT <= r <= UNIT,
{
    let a: i64 = if pos { c } else { 0 };
    let b: i64 = if neg { c } else { 0 };
    a - b
}

proof fn lemma_turn_bound(d: int, sens: int)
    requires
        i32::MIN <= d <= i32::MAX,
        0 <= sens <= u32::MAX,
    ensures
        -0x8000_0000_0000_0000 <= d * sens <= 0x8000_0000_0000_0000,
{
    assert(-0x8000_0000_0000_0000 <= d * sens <= 0x8000_0000_0000_0000) by (nonlinear_arith)
        requires
            -0x8000_0000 <= d <= 0x7fff_ffff,
            0 <= sens <= 0xffff_ffff,
    ;
}

proof fn lemma_square_bound(c: int)
    requires
        -2_000_000 <= c <= 2_000_000,
    ensures
        0 <= c * c <= 4_000_000_000_000,
{
    assert(0 <= c * c <= 4_000_000_000_000) by (nonlinear_arith)
        requires
            -2_000_000 <= c <= 2_000_000,
    ;
}

/// A component of a vector is at most the integer root of the vector's squared length.
proof fn lemma_component_within_root(c: int, m: int, n: int)
    requires
        0 <= c * c <= m,
        is_root(m, n),
    ensures
        -n <= c <= n,
{
    let a = if c >= 0 { c } else { -c };
    assert(a * a == c * c) by (nonlinear_arith)
        requires
            a == c || a == -c,
    ;
    if a > n {
        assert((n + 1) * (n + 1) <= a * a) by (nonlinear_arith)
            requires
                0 <= n + 1 <= a,
        ;
    }
}

/// `c * scale / len` rounded toward zero, for a component no longer than `len`.
fn scale_component(c: i64, scale: u64, len: u64) -> (r: i64)
    requires
        -(len as int) <= c <= len,
        len >= 1,
        scale <= i64::MAX,
    ensures
        r == scaled(c as int, scale as int, len as int),
{
    let a: u64 = if c >= 0 { c as u64 } else { (-(c as i128)) as u64 };
    assert(a as int * scale as int <= 0x4000_0000_0000_0000_0000_0000_0000_0000) by (nonlinear_arith)
        requires
            a <= 0x8000_0000_0000_0000u64,
            scale <= 0x8000_0000_0000_0000u64,
    ;
    let p: u128 = a as u128 * scale as u128;
    let q: u128 = p / len as u128;
    proof {
        assert(a as int * scale as int <= len as int * scale as int) by (nonlinear_arith)
            requires
                a <= len,
        ;
        vstd::arithmetic::div_mod::lemma_div_is_ordered(
            a as int * scale as int,
            len as int * scale as int,
            len as int,
        );
        vstd::arithmetic::div_mod::lemma_div_multiples_vanish(scale as int, len as int);
    }
    if c >= 0 {
        q as i64
    } else {
        -(q as i64)
    }
}


impl Player {
    /// A controller at rest: no key held, both angles zero, the default settings, and the
    /// null camera reference.
    pub fn new() -> (r: Player)
        ensures
            r.wf(),
            r@ == initial_view(),
    {
        Player {
            move_forward: false,
            move_backward: false,
            move_left: false,
            move_right: false,
            yaw: 0,
            pitch: 0,
            camera: NodeRef { index: 0, generation: 0 },
            mouse_sensitivity: DEFAULT_MOUSE_SENSITIVITY,
            movement_speed: DEFAULT_MOVEMENT_SPEED,
        }
    }

    /// The controller's fields, for saving.
    pub fn state(&self) -> (r: PlayerState)
        ensures
            state_view(r) == self@,
    {
        PlayerState {
            move_forward: self.move_forward,
            move_backward: self.move_backward,
            move_left: self.move_left,
            move_right: self.move_right,
            yaw: self.yaw,
            pitch: self.pitch,
            camera: self.camera,
            mouse_sensitivity: self.mouse_sensitivity,
            movement_speed: self.movement_speed,
        }
    }

    /// A controller with the saved fields; none where the pitch lies beyond its limits.
    pub fn restore(s: PlayerState) -> (r: Option<Player>)
        ensures
            r is Some <==> -PITCH_LIMIT <= s.pitch <= PITCH_LIMIT,
            r is Some ==> r.unwrap().wf() && r.unwrap()@ == state_view(s),
    {
        if s.pitch < -PITCH_LIMIT || s.pitch > PITCH_LIMIT {
            return None;
        }
        Some(
            Player {
                move_forward: s.move_forward,
                move_backward: s.move_backward,
                move_left: s.move_left,
                move_right: s.move_right,
                yaw: s.yaw,
                pitch: s.pitch,
                camera: s.camera,
                mouse_sensitivity: s.mouse_sensitivity,
                movement_speed: s.movement_speed,
            },
        )
    }

    /// Whether `on_update` can take `dt_us`: the speed times the elapsed time fits a
    /// velocity component.
    pub fn accepts_tick(&self, dt_us: u32) -> (r: bool)
        ensures
            r == self.fits_tick(dt_us),
    {
        assert(self.movement_speed as int * dt_us as int <= 0xffff_ffff * 0xffff_ffff) by (nonlinear_arith)
            requires
                self.movement_speed <= 0xffff_ffffu32,
                dt_us <= 0xffff_ffffu32,
        ;
        (self.movement_speed as u64 * dt_us as u64) <= i64::MAX as u64
    }

    pub fn move_forward(&self) -> (r: bool)
        ensures
            r == self@.move_forward,
    {
        self.move_forward
    }

    pub fn move_backward(&self) -> (r: bool)
        ensures
            r == self@.move_backward,
    {
        self.move_backward
    }

    pub fn move_left(&self) -> (r: bool)
        ensures
            r == self@.move_left,
    {
        self.move_left
    }

    pub fn move_right(&self) -> (r: bool)
        ensures
            r == self@.move_right,
    {
        self.move_right
    }

    /// The heading, in millidegrees.
    pub fn yaw(&self) -> (r: i64)
        ensures
            r == self@.yaw,
    {
        self.yaw
    }

    /// The vertical look angle, in millidegrees.
    pub fn pitch(&self) -> (r: i64)
        ensures
            r == self@.pitch,
    {
        self.pitch
    }

    pub fn camera(&self) -> (r: NodeRef)
        ensures
            r == self@.camera,
    {
        self.camera
    }

    pub fn set_camera(&mut self, camera: NodeRef)
        ensures
            final(self)@ == (PlayerView { camera, ..old(self)@ }),
    {
        self.camera = camera;
    }

    pub fn mouse_sensitivity(&self) -> (r: u32)
        ensures
            r == self@.mouse_sensitivity,
    {
        self.mouse_sensitivity
    }

    /// Sets the turn per count of pointer motion, in millidegrees.
    pub fn set_mouse_sensitivity(&mut self, sensitivity: u32)
        ensures
            final(self)@ == (PlayerView { mouse_sensitivity: sensitivity as int, ..old(self)@ }),
    {
        self.mouse_sensitivity = sensitivity;
    }

    pub fn movement_speed(&self) -> (r: u32)
        ensures
            r == self@.movement_speed,
    {
        self.movement_speed
    }

    /// Sets the planar speed, in world units per second.
    pub fn set_movement_speed(&mut self, speed: u32)
        ensures
            final(self)@ == (PlayerView { movement_speed: speed as int, ..old(self)@ }),
    {
        self.movement_speed = speed;
    }
}

impl Default for Player {
    fn default() -> (r: Player)
        ensures
            r.wf(),
            r@ == initial_view(),
    {
        Player::new()
    }
}

/// A controller at rest: no key held, both angles zero, the default settings, and the
/// null camera reference.
pub open spec fn initial_view() -> PlayerView {
    PlayerView {
        move_forward: false,
        move_backward: false,
        move_left: false,
        move_right: false,
        yaw: 0,
        pitch: 0,
        camera: NodeRef { index: 0, generation: 0 },
        mouse_sensitivity: DEFAULT_MOUSE_SENSITIVITY as int,
        movement_speed: DEFAULT_MOVEMENT_SPEED as int,
    }
}

pub open spec fn state_view(s: PlayerState) -> PlayerView {
    PlayerView {
        move_forward: s.move_forward,
        move_backward: s.move_backward,
        move_left: s.move_left,
        move_right: s.move_right,
        yaw: s.yaw as int,
        pitch: s.pitch as int,
        camera: s.camera,
        mouse_sensitivity: s.mouse_sensitivity as int,
        movement_speed: s.movement_speed as int,
    }
}

/// The flag that a movement key drives; false for any other key.
pub open spec fn key_flag(v: PlayerView, code: KeyCode) -> bool {
    match code {
        KeyCode::KeyW => v.move_forward,
        KeyCode::KeyS => v.move_backward,
        KeyCode::KeyA => v.move_left,
        KeyCode::KeyD => v.move_right,
        KeyCode::Other => false,
    }
}

/// Whatever pointer motion comes, in whatever amount, the pitch stays within its limits.
pub proof fn lemma_pitch_stays_clamped(v: PlayerView, events: Seq<InputEvent>)
    requires
        -PITCH_LIMIT <= v.pitch <= PITCH_LIMIT,
    ensures
        -PITCH_LIMIT <= run(v, events).pitch <= PITCH_LIMIT,
    decreases events.len(),
{
    if events.len() > 0 {
        lemma_pitch_stays_clamped(step(v, events[0]), events.drop_first());
    }
}

/// The yaw is never clamped: after any events it has moved by the sensitivity times the
/// total horizontal motion, against its sign.
pub proof fn lemma_yaw_accumulates(v: PlayerView, events: Seq<InputEvent>)
    ensures
        run(v, events).yaw == v.yaw - v.mouse_sensitivity * total_dx(events),
        run(v, events).mouse_sensitivity == v.mouse_sensitivity,
    decreases events.len(),
{
    if events.len() > 0 {
        let w = step(v, events[0]);
        lemma_yaw_accumulates(w, events.drop_first());
        match events[0] {
            InputEvent::MouseMotion { dx, dy } => {
                assert(v.yaw - dx * v.mouse_sensitivity - v.mouse_sensitivity * total_dx(
                    events.drop_first(),
                ) == v.yaw - v.mouse_sensitivity * (dx + total_dx(events.drop_first())))
                    by (nonlinear_arith);
            },
            _ => {},
        }
    }
}

/// Two motions turn the yaw by the sensitivity times the sum of their horizontal parts.
pub proof fn lemma_yaw_two_motions(v: PlayerView, dx1: i32, dy1: i32, dx2: i32, dy2: i32)
    ensures
        run(
            v,
            seq![InputEvent::MouseMotion { dx: dx1, dy: dy1 }, InputEvent::MouseMotion { dx: dx2, dy: dy2 }],
        ).yaw == v.yaw - v.mouse_sensitivity * (dx1 + dx2),
{
    let events = seq![InputEvent::MouseMotion { dx: dx1, dy: dy1 }, InputEvent::MouseMotion { dx: dx2, dy: dy2 }];
    lemma_yaw_accumulates(v, events);
    let rest = events.drop_first();
    assert(rest[0] == InputEvent::MouseMotion { dx: dx2, dy: dy2 });
    assert(rest.drop_first().len() == 0);
    assert(total_dx(rest.drop_first()) == 0);
    assert(total_dx(rest) == dx2);
    assert(total_dx(events) == dx1 + dx2);
}

/// Releasing a key clears its flag whether or not it was held, and pressing then
/// releasing it leaves the same state as releasing it alone.
pub proof fn lemma_release_clears(v: PlayerView, code: KeyCode)
    ensures
        !key_flag(step(v, InputEvent::KeyboardInput { code, pressed: false }), code),
        run(
            v,
            seq![
                InputEvent::KeyboardInput { code, pressed: true },
                InputEvent::KeyboardInput { code, pressed: false },
            ],
        ) == step(v, InputEvent::KeyboardInput { code, pressed: false }),
{
    let events = seq![
        InputEvent::KeyboardInput { code, pressed: true },
        InputEvent::KeyboardInput { code, pressed: false },
    ];
    let rest = events.drop_first();
    let pressed = step(v, InputEvent::KeyboardInput { code, pressed: true });
    assert(rest[0] == InputEvent::KeyboardInput { code, pressed: false });
    assert(rest.drop_first().len() == 0);
    assert(run(pressed, rest) == run(step(pressed, rest[0]), rest.drop_first()));
    assert(step(pressed, rest[0]) == step(v, InputEvent::KeyboardInput { code, pressed: false }));
}

/// With no movement key held, the body stops in the plane and keeps its vertical velocity,
/// whatever the camera's vectors.
pub proof fn lemma_no_keys_stop(v: PlayerView, look: Vec3, side: Vec3, scale: int, y: int)
    requires
        !v.move_forward && !v.move_backward && !v.move_left && !v.move_right,
    ensures
        direction(v, look, side) == (0int, 0int, 0int),
        planar_velocity(direction(v, look, side), scale, y) == (0int, y, 0int),
{
}

/// Opposing keys held together cancel: forward with backward and left with right give a
/// zero direction, and the body stops in the plane.
pub proof fn lemma_opposing_keys_cancel(v: PlayerView, look: Vec3, side: Vec3, scale: int, y: int)
    requires
        v.move_forward == v.move_backward,
        v.move_left == v.move_right,
    ensures
        direction(v, look, side) == (0int, 0int, 0int),
        planar_velocity(direction(v, look, side), scale, y) == (0int, y, 0int),
{
}

/// Forward alone along a look vector of one unit down the z axis moves the body at the
/// full scaled speed down that axis, with its vertical velocity kept.
pub proof fn lemma_straight_ahead(v: PlayerView, side: Vec3, scale: int, y: int)
    requires
        v.move_forward && !v.move_backward && !v.move_left && !v.move_right,
        scale >= 0,
    ensures
        planar_velocity(direction(v, Vec3 { x: 0, y: 0, z: -1_000_000i64 }, side), scale, y) == (0int, y, -scale),
{
    let d = direction(v, Vec3 { x: 0, y: 0, z: -1_000_000i64 }, side);
    assert(d == (0int, 0int, -1_000_000int));
    assert(length_squared(d) == 1_000_000_000_000int);
    assert(is_root(1_000_000_000_000int, 1_000_000int));
    crate::geometry::lemma_root_unique(1_000_000_000_000int, isqrt(1_000_000_000_000int), 1_000_000int);
    vstd::arithmetic::div_mod::lemma_div_multiples_vanish(scale, 1_000_000int);
    assert(1_000_000 * scale == scale * 1_000_000);
}

} // verus!
