//! The sandbox boundary of the binding layer.
//!
//! Scripts hand the host duck-typed values; the host classifies each as a
//! vector, a color, a scalar or something unrecognized, and applies writes
//! to the scene store only when the shape fits the field. Malformed values
//! are dropped silently, unknown object names change nothing, and once the
//! session's running flag is cleared no write lands at all. Script-side
//! colors carry channels on the 0 to 255 scale and are stored normalized to
//! the unit range.

use std::sync::Arc;

use vstd::prelude::*;
use vstd::rwlock::{RwLock, RwLockPredicate};

use crate::input::InputState;
use crate::scalar::{saturate_i64, Fixed, Vec3F, MICROS_PER_UNIT};
use crate::scene::ObjView;
use crate::store::{spec_after_write, spec_index_of, DataModel, Field, SceneTable};
use crate::viewport::SharedViewport;

verus! {

/// A script-provided value after shape validation: a three-component
/// vector, a color (already normalized), a number, or something the
/// sandbox does not recognize.
#[derive(Debug, Clone, Copy, PartialEq, Eq, Structural)]
pub enum ScriptValue {
    Vector3(Vec3F),
    Color3(Vec3F),
    Scalar(Fixed),
    Unrecognized,
}

/// One unit-range channel from a 0-to-255-range channel, truncating
/// toward zero.
pub open spec fn spec_channel_to_unit(m: int) -> int {
    if m >= 0 {
        m / 255
    } else {
        -((-m) / 255)
    }
}

/// One 0-to-255-range channel from a unit-range channel, saturating at the
/// fixed-point range ends.
pub open spec fn spec_unit_to_channel(m: int) -> int {
    saturate_i64(m * 255)
}

/// Divides one channel by 255.
pub fn channel_to_unit(v: Fixed) -> (r: Fixed)
    ensures
        r.micros == spec_channel_to_unit(v.micros as int),
{
    if v.micros >= 0 {
        Fixed { micros: ((v.micros as u64) / 255) as i64 }
    } else if v.micros == i64::MIN {
        Fixed { micros: -((9223372036854775808u64 / 255) as i64) }
    } else {
        let magnitude = (-v.micros) as u64;
        Fixed { micros: -((magnitude / 255) as i64) }
    }
}

/// Multiplies one channel by 255, saturating.
pub fn unit_to_channel(v: Fixed) -> (r: Fixed)
    ensures
        r.micros == spec_unit_to_channel(v.micros as int),
{
    match v.micros.checked_mul(255) {
        Some(m) => Fixed { micros: m },
        None => {
            proof {
                assert(v.micros >= 0 ==> v.micros * 255 >= 0) by (nonlinear_arith);
                assert(v.micros < 0 ==> v.micros * 255 < 0) by (nonlinear_arith);
            }
            if v.micros > 0 {
                Fixed { micros: i64::MAX }
            } else {
                Fixed { micros: i64::MIN }
            }
        },
    }
}

/// A color value from script-side channels (0 to 255 scale), stored
/// normalized.
pub fn color_from_channels(r: Fixed, g: Fixed, b: Fixed) -> (c: Vec3F)
    ensures
        c.x.micros == spec_channel_to_unit(r.micros as int),
        c.y.micros == spec_channel_to_unit(g.micros as int),
        c.z.micros == spec_channel_to_unit(b.micros as int),
{
    Vec3F { x: channel_to_unit(r), y: channel_to_unit(g), z: channel_to_unit(b) }
}

/// The script-side channels (0 to 255 scale) of a stored, normalized color.
pub fn color_to_channels(c: Vec3F) -> (r: Vec3F)
    ensures
        r.x.micros == spec_unit_to_channel(c.x.micros as int),
        r.y.micros == spec_unit_to_channel(c.y.micros as int),
        r.z.micros == spec_unit_to_channel(c.z.micros as int),
{
    Vec3F { x: unit_to_channel(c.x), y: unit_to_channel(c.y), z: unit_to_channel(c.z) }
}

/// Round trip of one color channel: a channel written through the sandbox
/// and read back loses less than one 255th of a unit, and nothing at all
/// when it is a whole multiple of 255 micro-units, as every whole channel
/// value is.
pub proof fn lemma_channel_round_trip(m: int)
    requires
        0 <= m <= 255 * (MICROS_PER_UNIT as int) * 255,
    ensures
        m - 254 <= spec_unit_to_channel(spec_channel_to_unit(m)) <= m,
        m % 255 == 0 ==> spec_unit_to_channel(spec_channel_to_unit(m)) == m,
{
    let q = m / 255;
    vstd::arithmetic::div_mod::lemma_fundamental_div_mod(m, 255);
    vstd::arithmetic::div_mod::lemma_mod_bound(m, 255);
    assert(m == 255 * q + m % 255);
    assert(q * 255 == m - m % 255) by (nonlinear_arith)
        requires
            m == 255 * q + m % 255,
    ;
    assert(0 <= q * 255 <= i64::MAX);
}

/// Color round trip: a color built from whole script-side channels in the
/// 0 to 255 range and read back through the proxy returns exactly the
/// original channels; fractional channels return within one 255th of a
/// unit.
pub proof fn lemma_color_round_trip(r: int, g: int, b: int)
    requires
        0 <= r <= 255 * (MICROS_PER_UNIT as int),
        0 <= g <= 255 * (MICROS_PER_UNIT as int),
        0 <= b <= 255 * (MICROS_PER_UNIT as int),
    ensures
        r - 254 <= spec_unit_to_channel(spec_channel_to_unit(r)) <= r,
        g - 254 <= spec_unit_to_channel(spec_channel_to_unit(g)) <= g,
        b - 254 <= spec_unit_to_channel(spec_channel_to_unit(b)) <= b,
        r % 255 == 0 ==> spec_unit_to_channel(spec_channel_to_unit(r)) == r,
        g % 255 == 0 ==> spec_unit_to_channel(spec_channel_to_unit(g)) == g,
        b % 255 == 0 ==> spec_unit_to_channel(spec_channel_to_unit(b)) == b,
{
    lemma_channel_round_trip(r);
    lemma_channel_round_trip(g);
    lemma_channel_round_trip(b);
}

/// What a script write means for a field: the vector and scalar handed to
/// the store when the value's shape fits, or nothing when it is malformed.
pub open spec fn spec_coerce(field: Field, value: ScriptValue) -> Option<(Vec3F, Fixed)> {
    match field {
        Field::Position | Field::Rotation | Field::Scale => match value {
            ScriptValue::Vector3(v) => Option::Some((v, Fixed { micros: 0 })),
            _ => Option::None,
        },
        Field::Color => match value {
            ScriptValue::Color3(c) => Option::Some((c, Fixed { micros: 0 })),
            ScriptValue::Vector3(v) => Option::Some((v, Fixed { micros: 0 })),
            _ => Option::None,
        },
        Field::Fov | Field::Intensity => match value {
            ScriptValue::Scalar(s) => Option::Some((Vec3F::zero_spec(), s)),
            _ => Option::None,
        },
    }
}

/// Classifies a script value for a field: the vector and scalar handed to
/// the store when the shape fits, or nothing when it is malformed.
pub fn coerce_value(field: Field, value: ScriptValue) -> (r: Option<(Vec3F, Fixed)>)
    ensures
        r == spec_coerce(field, value),
{
    match field {
        Field::Position | Field::Rotation | Field::Scale => match value {
            ScriptValue::Vector3(v) => Some((v, Fixed::zero())),
            _ => None,
        },
        Field::Color => match value {
            ScriptValue::Color3(c) => Some((c, Fixed::zero())),
            ScriptValue::Vector3(v) => Some((v, Fixed::zero())),
            _ => None,
        },
        Field::Fov | Field::Intensity => match value {
            ScriptValue::Scalar(s) => Some((Vec3F::zero(), s)),
            _ => None,
        },
    }
}

/// How one script-side write ended.
#[derive(Debug, Clone, Copy, PartialEq, Eq, Structural)]
pub enum WriteOutcome {
    /// The value landed in the store.
    Applied,
    /// No object of that name exists; nothing changed.
    UnknownObject,
    /// The value's shape does not fit the field; nothing changed.
    Ignored,
    /// The session was stopped; nothing changed.
    Stopped,
}

/// The table a script write leaves behind: untouched unless the session is
/// running and the value fits the field, in which case the named object's
/// field is set.
pub open spec fn spec_write_result(
    objs: Seq<ObjView>,
    name: Seq<char>,
    field: Field,
    value: ScriptValue,
    running: bool,
) -> Seq<ObjView> {
    if !running {
        objs
    } else {
        match spec_coerce(field, value) {
            Option::None => objs,
            Option::Some((vector, scalar)) => spec_after_write(objs, name, field, vector, scalar),
        }
    }
}

/// Applies one script-side write to the scene table, under the sandbox
/// rules: nothing happens after a stop, on a malformed value, or for an
/// unknown name, and otherwise exactly the named field changes.
pub fn apply_script_write(
    table: &mut SceneTable,
    name: &str,
    field: Field,
    value: ScriptValue,
    running: bool,
) -> (r: WriteOutcome)
    ensures
        final(table)@ == spec_write_result(old(table)@, name@, field, value, running),
        r == WriteOutcome::Applied <==> (running && spec_coerce(field, value) is Some
            && spec_index_of(old(table)@, name@) is Some),
        r == WriteOutcome::Stopped <==> !running,
        r == WriteOutcome::Ignored <==> (running && spec_coerce(field, value) is None),
        r == WriteOutcome::UnknownObject <==> (running && spec_coerce(field, value) is Some
            && spec_index_of(old(table)@, name@) is None),
{
    if !running {
        return WriteOutcome::Stopped;
    }
    match coerce_value(field, value) {
        None => WriteOutcome::Ignored,
        Some((vector, scalar)) => {
            if table.set_field(name, field, vector, scalar) {
                WriteOutcome::Applied
            } else {
                WriteOutcome::UnknownObject
            }
        },
    }
}

/// A wait duration as scripts may pass it: absent or negative means zero.
pub open spec fn spec_clamp_wait(duration: Option<i64>) -> int {
    match duration {
        Option::None => 0,
        Option::Some(d) => if d < 0 {
            0
        } else {
            d as int
        },
    }
}

/// Clamps a script-provided wait duration to a usable number of
/// milliseconds.
pub fn clamp_wait(duration: Option<i64>) -> (r: u64)
    ensures
        r == spec_clamp_wait(duration),
{
    match duration {
        None => 0,
        Some(d) => if d < 0 {
            0
        } else {
            d as u64
        },
    }
}

/// Longest single sleep slice of a cooperative wait, in milliseconds; the
/// running flag is rechecked between slices.
pub const WAIT_SLICE_MILLIS: u64 = 10;

/// What a waiting script must do next.
#[derive(Debug, Clone, Copy, PartialEq, Eq, Structural)]
pub enum WaitStep {
    /// The session stopped: raise the distinguished cancellation error.
    Cancelled,
    /// Nothing left to wait: yield once and return to the script.
    Finished,
    /// Sleep for `slice` milliseconds, then step again with `remaining`.
    Sleep { slice: u64, remaining: u64 },
}

/// One step of the sliced wait loop: done at zero, cancelled the moment
/// the running flag is clear, else one bounded sleep slice.
pub fn wait_step(remaining: u64, running: bool) -> (r: WaitStep)
    ensures
        r == spec_wait_step(remaining, running),
{
    if remaining == 0 {
        WaitStep::Finished
    } else if !running {
        WaitStep::Cancelled
    } else {
        let slice = if remaining < WAIT_SLICE_MILLIS {
            remaining
        } else {
            WAIT_SLICE_MILLIS
        };
        WaitStep::Sleep { slice, remaining: remaining - slice }
    }
}

/// A stop request is honored within one slice: whatever duration a script
/// is waiting out, the very next step after the flag clears is the
/// distinguished cancellation, and every sleep before that was at most one
/// slice long.
pub proof fn lemma_stop_bounds_wait(remaining: u64, running: bool)
    ensures
        !running && remaining > 0 ==> spec_wait_step(remaining, running) == WaitStep::Cancelled,
        forall|slice: u64, rest: u64|
            spec_wait_step(remaining, running) == (WaitStep::Sleep { slice, remaining: rest })
                ==> slice <= WAIT_SLICE_MILLIS && rest < remaining,
{
}

/// The step the wait loop takes, as a mathematical value.
pub open spec fn spec_wait_step(remaining: u64, running: bool) -> WaitStep {
    if remaining == 0 {
        WaitStep::Finished
    } else if !running {
        WaitStep::Cancelled
    } else if remaining < WAIT_SLICE_MILLIS {
        WaitStep::Sleep { slice: remaining, remaining: 0 }
    } else {
        WaitStep::Sleep { slice: WAIT_SLICE_MILLIS, remaining: (remaining - WAIT_SLICE_MILLIS) as u64 }
    }
}

/// Anything may sit in the flag lock.
pub struct AnyFlag;

impl RwLockPredicate<bool> for AnyFlag {
    open spec fn inv(self, v: bool) -> bool {
        true
    }
}

/// The shared running flag of one script session: set when scripts start,
/// cleared by a stop request or when the last script retires. Every
/// in-flight script checks it between instruction batches and between wait
/// slices.
pub struct RunFlag {
    inner: Arc<RwLock<bool, AnyFlag>>,
}

impl Clone for RunFlag {
    /// The clone observes and controls the same flag.
    fn clone(&self) -> Self {
        RunFlag { inner: self.inner.clone() }
    }
}

impl RunFlag {
    /// A fresh flag, initially clear.
    pub fn new() -> Self {
        RunFlag { inner: Arc::new(RwLock::new(false, Ghost(AnyFlag))) }
    }

    /// Sets or clears the flag.
    pub fn store(&self, value: bool) {
        let (_, handle) = self.inner.acquire_write();
        handle.release_write(value);
    }

    /// Reads the flag.
    pub fn load(&self) -> bool {
        let handle = self.inner.acquire_read();
        let value = *handle.borrow();
        handle.release_read();
        value
    }
}

/// Capability bundle handed to one script: the shared scene store, the
/// input and viewport snapshots, and the session's running flag. Cloning
/// shares all four.
pub struct ScriptContext {
    pub data_model: DataModel,
    pub input_state: InputState,
    pub viewport: SharedViewport,
    pub running: RunFlag,
}

impl ScriptContext {
    /// Bundles the four capabilities.
    pub fn new(
        data_model: DataModel,
        input_state: InputState,
        viewport: SharedViewport,
        running: RunFlag,
    ) -> Self {
        ScriptContext { data_model, input_state, viewport, running }
    }
}

impl Clone for ScriptContext {
    /// The clone shares the same store, input, viewport and flag.
    fn clone(&self) -> Self {
        ScriptContext {
            data_model: self.data_model.clone(),
            input_state: self.input_state.clone(),
            viewport: self.viewport.clone(),
            running: self.running.clone(),
        }
    }
}

/// Applies one script-side write through the shared store, checking
/// liveness first: a write from a stopped session is refused without
/// touching the store.
pub fn apply_shared_write(
    context: &ScriptContext,
    name: &str,
    field: Field,
    value: ScriptValue,
) -> WriteOutcome {
    if !context.running.load() {
        return WriteOutcome::Stopped;
    }
    match coerce_value(field, value) {
        None => WriteOutcome::Ignored,
        Some((vector, scalar)) => {
            if context.data_model.set_field(name, field, vector, scalar) {
                WriteOutcome::Applied
            } else {
                WriteOutcome::UnknownObject
            }
        },
    }
}

} // verus!
