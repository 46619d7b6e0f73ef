use vstd::prelude::*;

use crate::float_bits::{bits_lt, lt, F64Bits};

verus! {

/// Whether a pan gesture is in progress.
#[derive(Debug, Clone, Copy, PartialEq, Eq, Structural)]
pub enum InteractionMode {
    Idle,
    Panning,
}

/// How the crosshair follows the pointer.
#[derive(Debug, Clone, Copy, PartialEq, Eq, Structural)]
pub enum CrosshairMode {
    /// Crosshair follows nearest data sample (current default behavior).
    Magnet,
    /// Crosshair follows raw pointer position without snapping.
    Normal,
    /// Crosshair remains hidden regardless of pointer movement.
    Hidden,
}

/// `0.85` as an encoded `f64`.
pub const DEFAULT_KINETIC_DECAY_PER_SECOND: F64Bits = 0x3feb_3333_3333_3333;

/// `0.01` as an encoded `f64`.
pub const DEFAULT_KINETIC_STOP_VELOCITY_ABS: F64Bits = 0x3f84_7ae1_47ae_147b;

/// Tuning for deterministic kinetic pan stepping.
#[derive(Debug, Clone, Copy, PartialEq, Eq, Structural)]
pub struct KineticPanConfig {
    /// Multiplicative velocity decay per second (encoded `f64`).
    pub decay_per_second: F64Bits,
    /// Kinetic pan stops when `abs(velocity)` drops below this threshold (encoded `f64`).
    pub stop_velocity_abs: F64Bits,
}

impl Default for KineticPanConfig {
    fn default() -> (r: KineticPanConfig)
        ensures
            r.decay_per_second == DEFAULT_KINETIC_DECAY_PER_SECOND,
            r.stop_velocity_abs == DEFAULT_KINETIC_STOP_VELOCITY_ABS,
    {
        KineticPanConfig {
            decay_per_second: DEFAULT_KINETIC_DECAY_PER_SECOND,
            stop_velocity_abs: DEFAULT_KINETIC_STOP_VELOCITY_ABS,
        }
    }
}

/// Public kinetic pan runtime state.
#[derive(Debug, Clone, Copy, PartialEq, Eq, Structural)]
pub struct KineticPanState {
    pub active: bool,
    /// Velocity in time units per second (encoded `f64`).
    pub velocity_time_per_sec: F64Bits,
}

/// The resting kinetic state: inactive, with velocity `0.0`.
pub open spec fn kinetic_at_rest() -> KineticPanState {
    KineticPanState { active: false, velocity_time_per_sec: 0 }
}

impl Default for KineticPanState {
    fn default() -> (r: KineticPanState)
        ensures
            r == kinetic_at_rest(),
    {
        KineticPanState { active: false, velocity_time_per_sec: 0 }
    }
}

/// Deterministic snap candidate used to drive crosshair visuals and labels.
#[derive(Debug, Clone, Copy, PartialEq, Eq, Structural)]
pub struct CrosshairSnap {
    pub x: F64Bits,
    pub y: F64Bits,
    pub time: F64Bits,
    pub price: F64Bits,
}

/// Public crosshair state exposed to host applications.
#[derive(Debug, Clone, Copy, PartialEq, Eq, Structural)]
pub struct CrosshairState {
    pub visible: bool,
    pub x: F64Bits,
    pub y: F64Bits,
    pub snapped_x: Option<F64Bits>,
    pub snapped_y: Option<F64Bits>,
    pub snapped_time: Option<F64Bits>,
    pub snapped_price: Option<F64Bits>,
}

/// The crosshair holds the given snap: each snapped field is the snap's, or every one is
/// absent.
pub open spec fn crosshair_snap_is(c: CrosshairState, snap: Option<CrosshairSnap>) -> bool {
    match snap {
        Some(s) => {
            &&& c.snapped_x == Some(s.x)
            &&& c.snapped_y == Some(s.y)
            &&& c.snapped_time == Some(s.time)
            &&& c.snapped_price == Some(s.price)
        },
        None => {
            &&& c.snapped_x is None
            &&& c.snapped_y is None
            &&& c.snapped_time is None
            &&& c.snapped_price is None
        },
    }
}

/// The hidden crosshair at the origin, with no snap.
pub open spec fn crosshair_initial() -> CrosshairState {
    CrosshairState {
        visible: false,
        x: 0,
        y: 0,
        snapped_x: None,
        snapped_y: None,
        snapped_time: None,
        snapped_price: None,
    }
}

impl Default for CrosshairState {
    fn default() -> (r: CrosshairState)
        ensures
            r == crosshair_initial(),
    {
        CrosshairState {
            visible: false,
            x: 0,
            y: 0,
            snapped_x: None,
            snapped_y: None,
            snapped_time: None,
            snapped_price: None,
        }
    }
}

/// `f64::abs` on the encoded value: the sign bit cleared.
pub open spec fn abs_bits(b: F64Bits) -> F64Bits {
    (b as int % 0x8000_0000_0000_0000) as F64Bits
}

/// Pointer, pan and crosshair state of a chart.
#[derive(Debug, Clone, Copy, PartialEq, Eq, Structural)]
pub struct InteractionState {
    mode: InteractionMode,
    crosshair_mode: CrosshairMode,
    kinetic_pan_config: KineticPanConfig,
    kinetic_pan: KineticPanState,
    cursor_x: F64Bits,
    cursor_y: F64Bits,
    crosshair: CrosshairState,
}

impl Default for InteractionState {
    fn default() -> (r: InteractionState)
        ensures
            r.spec_mode() == InteractionMode::Idle,
            r.spec_crosshair_mode() == CrosshairMode::Magnet,
            r.spec_kinetic_pan_config().decay_per_second == DEFAULT_KINETIC_DECAY_PER_SECOND,
            r.spec_kinetic_pan_config().stop_velocity_abs == DEFAULT_KINETIC_STOP_VELOCITY_ABS,
            r.spec_kinetic_pan() == kinetic_at_rest(),
            r.spec_cursor() == (0u64, 0u64),
            r.spec_crosshair() == crosshair_initial(),
    {
        InteractionState {
            mode: InteractionMode::Idle,
            crosshair_mode: CrosshairMode::Magnet,
            kinetic_pan_config: KineticPanConfig::default(),
            kinetic_pan: KineticPanState::default(),
            cursor_x: 0,
            cursor_y: 0,
            crosshair: CrosshairState::default(),
        }
    }
}

impl InteractionState {
    pub closed spec fn spec_mode(&self) -> InteractionMode {
        self.mode
    }

    pub closed spec fn spec_crosshair_mode(&self) -> CrosshairMode {
        self.crosshair_mode
    }

    pub closed spec fn spec_kinetic_pan_config(&self) -> KineticPanConfig {
        self.kinetic_pan_config
    }

    pub closed spec fn spec_kinetic_pan(&self) -> KineticPanState {
        self.kinetic_pan
    }

    /// The last pointer position `(x, y)`, encoded.
    pub closed spec fn spec_cursor(&self) -> (F64Bits, F64Bits) {
        (self.cursor_x, self.cursor_y)
    }

    pub closed spec fn spec_crosshair(&self) -> CrosshairState {
        self.crosshair
    }

    /// The two states agree on everything but the kinetic pan state.
    pub open spec fn same_but_kinetic(&self, other: InteractionState) -> bool {
        &&& self.spec_mode() == other.spec_mode()
        &&& self.spec_crosshair_mode() == other.spec_crosshair_mode()
        &&& self.spec_kinetic_pan_config() == other.spec_kinetic_pan_config()
        &&& self.spec_cursor() == other.spec_cursor()
        &&& self.spec_crosshair() == other.spec_crosshair()
    }

    /// The two states agree on everything but the crosshair.
    pub open spec fn same_but_crosshair(&self, other: InteractionState) -> bool {
        &&& self.spec_mode() == other.spec_mode()
        &&& self.spec_crosshair_mode() == other.spec_crosshair_mode()
        &&& self.spec_kinetic_pan_config() == other.spec_kinetic_pan_config()
        &&& self.spec_kinetic_pan() == other.spec_kinetic_pan()
        &&& self.spec_cursor() == other.spec_cursor()
    }

    pub fn mode(self) -> (r: InteractionMode)
        ensures
            r == self.spec_mode(),
    {
        self.mode
    }

    pub fn crosshair_mode(self) -> (r: CrosshairMode)
        ensures
            r == self.spec_crosshair_mode(),
    {
        self.crosshair_mode
    }

    pub fn set_crosshair_mode(&mut self, mode: CrosshairMode)
        ensures
            final(self).spec_crosshair_mode() == mode,
            final(self).spec_mode() == old(self).spec_mode(),
            final(self).spec_kinetic_pan_config() == old(self).spec_kinetic_pan_config(),
            final(self).spec_kinetic_pan() == old(self).spec_kinetic_pan(),
            final(self).spec_cursor() == old(self).spec_cursor(),
            final(self).spec_crosshair() == old(self).spec_crosshair(),
    {
        self.crosshair_mode = mode;
    }

    pub fn kinetic_pan_config(self) -> (r: KineticPanConfig)
        ensures
            r == self.spec_kinetic_pan_config(),
    {
        self.kinetic_pan_config
    }

    pub fn set_kinetic_pan_config(&mut self, config: KineticPanConfig)
        ensures
            final(self).spec_kinetic_pan_config() == config,
            final(self).spec_mode() == old(self).spec_mode(),
            final(self).spec_crosshair_mode() == old(self).spec_crosshair_mode(),
            final(self).spec_kinetic_pan() == old(self).spec_kinetic_pan(),
            final(self).spec_cursor() == old(self).spec_cursor(),
            final(self).spec_crosshair() == old(self).spec_crosshair(),
    {
        self.kinetic_pan_config = config;
    }

    pub fn kinetic_pan_state(self) -> (r: KineticPanState)
        ensures
            r == self.spec_kinetic_pan(),
    {
        self.kinetic_pan
    }

    /// Starts kinetic panning at the given velocity (encoded `f64`).
    pub fn start_kinetic_pan(&mut self, velocity_time_per_sec: F64Bits)
        ensures
            final(self).spec_kinetic_pan() == (KineticPanState {
                active: true,
                velocity_time_per_sec,
            }),
            final(self).same_but_kinetic(*old(self)),
    {
        self.kinetic_pan.active = true;
        self.kinetic_pan.velocity_time_per_sec = velocity_time_per_sec;
    }

    /// Stops kinetic panning and zeroes its velocity.
    pub fn stop_kinetic_pan(&mut self)
        ensures
            final(self).spec_kinetic_pan() == kinetic_at_rest(),
            final(self).same_but_kinetic(*old(self)),
    {
        self.kinetic_pan.active = false;
        self.kinetic_pan.velocity_time_per_sec = 0;
    }

    /// Advances kinetic pan by one step.
    ///
    /// `displacement` is the velocity times the step's duration and `decayed_velocity` the
    /// velocity times the decay raised to that duration, both encoded. When kinetic pan is
    /// not active nothing changes and `None` is returned. Otherwise the velocity becomes the
    /// decayed one, the pan stops once its magnitude is below the stop threshold, and the
    /// displacement to apply is returned.
    pub fn step_kinetic_pan(&mut self, displacement: F64Bits, decayed_velocity: F64Bits) -> (r:
        Option<F64Bits>)
        ensures
            !old(self).spec_kinetic_pan().active ==> r is None && *final(self) == *old(self),
            old(self).spec_kinetic_pan().active ==> {
                &&& r == Some(displacement)
                &&& final(self).same_but_kinetic(*old(self))
                &&& if lt(
                    abs_bits(decayed_velocity),
                    old(self).spec_kinetic_pan_config().stop_velocity_abs,
                ) {
                    final(self).spec_kinetic_pan() == kinetic_at_rest()
                } else {
                    final(self).spec_kinetic_pan() == (KineticPanState {
                        active: true,
                        velocity_time_per_sec: decayed_velocity,
                    })
                }
            },
    {
        if !self.kinetic_pan.active {
            return None;
        }
        self.kinetic_pan.velocity_time_per_sec = decayed_velocity;
        let magnitude: F64Bits = decayed_velocity % 0x8000_0000_0000_0000;
        if bits_lt(magnitude, self.kinetic_pan_config.stop_velocity_abs) {
            self.stop_kinetic_pan();
        }
        Some(displacement)
    }

    /// The last pointer position `(x, y)`, encoded.
    pub fn cursor(self) -> (r: (F64Bits, F64Bits))
        ensures
            r == self.spec_cursor(),
    {
        (self.cursor_x, self.cursor_y)
    }

    pub fn crosshair(self) -> (r: CrosshairState)
        ensures
            r == self.spec_crosshair(),
    {
        self.crosshair
    }

    /// Records the pointer position and shows the crosshair there; its snap is kept.
    pub fn on_pointer_move(&mut self, x: F64Bits, y: F64Bits)
        ensures
            final(self).spec_cursor() == (x, y),
            final(self).spec_crosshair() == (CrosshairState {
                visible: true,
                x,
                y,
                ..old(self).spec_crosshair()
            }),
            final(self).spec_mode() == old(self).spec_mode(),
            final(self).spec_crosshair_mode() == old(self).spec_crosshair_mode(),
            final(self).spec_kinetic_pan_config() == old(self).spec_kinetic_pan_config(),
            final(self).spec_kinetic_pan() == old(self).spec_kinetic_pan(),
    {
        self.cursor_x = x;
        self.cursor_y = y;
        self.crosshair.visible = true;
        self.crosshair.x = x;
        self.crosshair.y = y;
    }

    /// Hides the crosshair and drops its snap; its position and the cursor are kept.
    pub fn on_pointer_leave(&mut self)
        ensures
            !final(self).spec_crosshair().visible,
            crosshair_snap_is(final(self).spec_crosshair(), None),
            final(self).spec_crosshair().x == old(self).spec_crosshair().x,
            final(self).spec_crosshair().y == old(self).spec_crosshair().y,
            final(self).same_but_crosshair(*old(self)),
    {
        self.crosshair.visible = false;
        self.crosshair.snapped_x = None;
        self.crosshair.snapped_y = None;
        self.crosshair.snapped_time = None;
        self.crosshair.snapped_price = None;
    }

    /// Replaces the crosshair's snap; visibility and position are kept.
    pub fn set_crosshair_snap(&mut self, snap: Option<CrosshairSnap>)
        ensures
            crosshair_snap_is(final(self).spec_crosshair(), snap),
            final(self).spec_crosshair().visible == old(self).spec_crosshair().visible,
            final(self).spec_crosshair().x == old(self).spec_crosshair().x,
            final(self).spec_crosshair().y == old(self).spec_crosshair().y,
            final(self).same_but_crosshair(*old(self)),
    {
        match snap {
            Some(snap) => {
                self.crosshair.snapped_x = Some(snap.x);
                self.crosshair.snapped_y = Some(snap.y);
                self.crosshair.snapped_time = Some(snap.time);
                self.crosshair.snapped_price = Some(snap.price);
            },
            None => {
                self.crosshair.snapped_x = None;
                self.crosshair.snapped_y = None;
                self.crosshair.snapped_time = None;
                self.crosshair.snapped_price = None;
            },
        }
    }

    /// Enters the panning mode.
    pub fn on_pan_start(&mut self)
        ensures
            final(self).spec_mode() == InteractionMode::Panning,
            final(self).spec_crosshair_mode() == old(self).spec_crosshair_mode(),
            final(self).spec_kinetic_pan_config() == old(self).spec_kinetic_pan_config(),
            final(self).spec_kinetic_pan() == old(self).spec_kinetic_pan(),
            final(self).spec_cursor() == old(self).spec_cursor(),
            final(self).spec_crosshair() == old(self).spec_crosshair(),
    {
        self.mode = InteractionMode::Panning;
    }

    /// Returns to the idle mode.
    pub fn on_pan_end(&mut self)
        ensures
            final(self).spec_mode() == InteractionMode::Idle,
            final(self).spec_crosshair_mode() == old(self).spec_crosshair_mode(),
            final(self).spec_kinetic_pan_config() == old(self).spec_kinetic_pan_config(),
            final(self).spec_kinetic_pan() == old(self).spec_kinetic_pan(),
            final(self).spec_cursor() == old(self).spec_cursor(),
            final(self).spec_crosshair() == old(self).spec_crosshair(),
    {
        self.mode = InteractionMode::Idle;
    }
}

} // verus!
