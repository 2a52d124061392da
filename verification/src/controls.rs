//! Camera controls: the fixed control list, state flags, control value
//! domains, and the range/step validation a control value must pass before
//! it is forwarded to a device.

use vstd::prelude::*;
use crate::error::NokhwaError;

verus! {

/// The fixed list of camera controls the integer-valued control records
/// describe.
#[derive(Copy, Clone, Debug, Hash, Eq, PartialEq, Structural)]
pub enum KnownCameraControls {
    Brightness,
    Contrast,
    Hue,
    Saturation,
    Sharpness,
    Gamma,
    ColorEnable,
    WhiteBalance,
    BacklightComp,
    Gain,
    Pan,
    Tilt,
    Roll,
    Zoom,
    Exposure,
    Iris,
    Focus,
}

/// Every named control, in a fixed order.
pub fn all_known_camera_controls() -> (r: [KnownCameraControls; 17])
    ensures
        r@ == seq![
            KnownCameraControls::Brightness,
            KnownCameraControls::Contrast,
            KnownCameraControls::Hue,
            KnownCameraControls::Saturation,
            KnownCameraControls::Sharpness,
            KnownCameraControls::Gamma,
            KnownCameraControls::ColorEnable,
            KnownCameraControls::WhiteBalance,
            KnownCameraControls::BacklightComp,
            KnownCameraControls::Gain,
            KnownCameraControls::Pan,
            KnownCameraControls::Tilt,
            KnownCameraControls::Roll,
            KnownCameraControls::Zoom,
            KnownCameraControls::Exposure,
            KnownCameraControls::Iris,
            KnownCameraControls::Focus,
        ],
{
    [
        KnownCameraControls::Brightness,
        KnownCameraControls::Contrast,
        KnownCameraControls::Hue,
        KnownCameraControls::Saturation,
        KnownCameraControls::Sharpness,
        KnownCameraControls::Gamma,
        KnownCameraControls::ColorEnable,
        KnownCameraControls::WhiteBalance,
        KnownCameraControls::BacklightComp,
        KnownCameraControls::Gain,
        KnownCameraControls::Pan,
        KnownCameraControls::Tilt,
        KnownCameraControls::Roll,
        KnownCameraControls::Zoom,
        KnownCameraControls::Exposure,
        KnownCameraControls::Iris,
        KnownCameraControls::Focus,
    ]
}

/// The named control a Video4Linux2 control id stands for, where one does.
pub open spec fn spec_control_for_v4l2_id(id: int) -> Option<KnownCameraControls> {
    if id == 9963776 { Some(KnownCameraControls::Brightness) }
    else if id == 9963777 { Some(KnownCameraControls::Contrast) }
    else if id == 9963779 { Some(KnownCameraControls::Hue) }
    else if id == 9963778 { Some(KnownCameraControls::Saturation) }
    else if id == 9963803 { Some(KnownCameraControls::Sharpness) }
    else if id == 9963792 { Some(KnownCameraControls::Gamma) }
    else if id == 9963802 { Some(KnownCameraControls::WhiteBalance) }
    else if id == 9963804 { Some(KnownCameraControls::BacklightComp) }
    else if id == 9963795 { Some(KnownCameraControls::Gain) }
    else if id == 10094852 { Some(KnownCameraControls::Pan) }
    else if id == 10094853 { Some(KnownCameraControls::Tilt) }
    else if id == 10094862 { Some(KnownCameraControls::Zoom) }
    else if id == 10094850 { Some(KnownCameraControls::Exposure) }
    else if id == 10094866 { Some(KnownCameraControls::Iris) }
    else if id == 10094859 { Some(KnownCameraControls::Focus) }
    else { None }
}

impl KnownCameraControls {
    /// Map a Video4Linux2 control id to the named control it stands for; ids
    /// this crate does not know are rejected.
    pub fn from_v4l2_id(id: u32) -> (r: Result<KnownCameraControls, NokhwaError>)
        ensures
            r == (match spec_control_for_v4l2_id(id as int) {
                Some(c) => Ok::<KnownCameraControls, NokhwaError>(c),
                None => Err::<KnownCameraControls, NokhwaError>(NokhwaError::ControlRejected),
            }),
    {
        if id == 9963776 { Ok(KnownCameraControls::Brightness) }
        else if id == 9963777 { Ok(KnownCameraControls::Contrast) }
        else if id == 9963779 { Ok(KnownCameraControls::Hue) }
        else if id == 9963778 { Ok(KnownCameraControls::Saturation) }
        else if id == 9963803 { Ok(KnownCameraControls::Sharpness) }
        else if id == 9963792 { Ok(KnownCameraControls::Gamma) }
        else if id == 9963802 { Ok(KnownCameraControls::WhiteBalance) }
        else if id == 9963804 { Ok(KnownCameraControls::BacklightComp) }
        else if id == 9963795 { Ok(KnownCameraControls::Gain) }
        else if id == 10094852 { Ok(KnownCameraControls::Pan) }
        else if id == 10094853 { Ok(KnownCameraControls::Tilt) }
        else if id == 10094862 { Ok(KnownCameraControls::Zoom) }
        else if id == 10094850 { Ok(KnownCameraControls::Exposure) }
        else if id == 10094866 { Ok(KnownCameraControls::Iris) }
        else if id == 10094859 { Ok(KnownCameraControls::Focus) }
        else { Err(NokhwaError::ControlRejected) }
    }
}

/// How a control is managed: by the driver, by the caller, or not at all.
///
/// A control flagged `ReadOnly` or `Disabled` rejects every update.
#[derive(Copy, Clone, Debug, Hash, Eq, PartialEq, Structural)]
pub enum KnownCameraControlFlag {
    Automatic,
    Manual,
    Continuous,
    ReadOnly,
    WriteOnly,
    Volatile,
    Disabled,
}

/// A control's value domain as a backend reports it: the shape of the value,
/// its current value, its default, and (for numeric shapes) bounds and step.
#[derive(Clone, Debug, Hash, Eq, PartialEq)]
pub enum ControlValue {
    Unset,
    Integer { value: i64, default: i64, step: i64 },
    IntegerRange { min: i32, max: i32, value: i32, step: i32, default: i32 },
    Boolean { value: bool, default: bool },
    String { value: String, default: String },
    Bytes { value: Vec<u8>, default: Vec<u8> },
    KeyValuePair { key: i128, value: i128, default_key: i128, default_value: i128 },
    EnumValues { value: i64, possible: Vec<i64>, default: i64 },
}

/// A value handed to a control setter, in the same shapes as the value
/// domains of `ControlValue`.
#[derive(Clone, Debug, Hash, Eq, PartialEq)]
pub enum ControlValueSetter {
    Unset,
    Integer(i64),
    Boolean(bool),
    String(String),
    Bytes(Vec<u8>),
    KeyValue(i128, i128),
    EnumValue(i64),
}

/// Whether a setter fits a control's value domain: the shapes must match;
/// a ranged integer must lie strictly inside the (exclusive) bounds; a
/// stepped integer must sit on the step grid anchored at the default, where
/// a step of zero constrains nothing; an enumerated value must be one of the
/// allowed values.
pub open spec fn spec_verify_setter(desc: ControlValue, setter: ControlValueSetter) -> bool {
    match desc {
        ControlValue::Unset => setter is Unset,
        ControlValue::Integer { default, step, .. } => match setter {
            ControlValueSetter::Integer(i) => step_aligned(i - default, step as int),
            _ => false,
        },
        ControlValue::IntegerRange { min, max, step, default, .. } => match setter {
            ControlValueSetter::Integer(i) => min < i < max && step_aligned(
                i - default,
                step as int,
            ),
            _ => false,
        },
        ControlValue::Boolean { .. } => setter is Boolean,
        ControlValue::String { .. } => setter is String,
        ControlValue::Bytes { .. } => setter is Bytes,
        ControlValue::KeyValuePair { .. } => setter is KeyValue,
        ControlValue::EnumValues { possible, .. } => match setter {
            ControlValueSetter::EnumValue(e) => possible@.contains(e),
            _ => false,
        },
    }
}

/// Decide whether `value - default` sits on the grid of `step` (a step of
/// zero constrains nothing).
fn diff_step_aligned(value: i64, default: i64, step: i64) -> (r: bool)
    ensures
        r == step_aligned(value - default, step as int),
{
    if step == 0 {
        true
    } else {
        let diff: i128 = value as i128 - default as i128;
        let ad: u128 = if diff >= 0 { diff as u128 } else { (-diff) as u128 };
        let astep: u128 = if step >= 0 { step as u128 } else { (-(step as i128)) as u128 };
        ad % astep == 0
    }
}

/// Decide whether a vector holds a value.
fn contains_i64(v: &Vec<i64>, x: i64) -> (r: bool)
    ensures
        r == v@.contains(x),
{
    let n = v.len();
    let mut i: usize = 0;
    while i < n
        invariant
            0 <= i <= n,
            n == v@.len(),
            forall|j: int| 0 <= j < i ==> v@[j] != x,
        decreases n - i,
    {
        if v[i] == x {
            assert(v@.contains(x)) by {
                assert(v@[i as int] == x);
            }
            return true;
        }
        i = i + 1;
    }
    false
}

/// Check a setter against a control's value domain, exactly as
/// `spec_verify_setter` states: matching shape, strict range, step grid
/// anchored at the default with a zero step constraining nothing, and
/// membership for enumerated values.
pub fn verify_setter(desc: &ControlValue, setter: &ControlValueSetter) -> (r: bool)
    ensures
        r == spec_verify_setter(*desc, *setter),
{
    match desc {
        ControlValue::Unset => matches!(setter, ControlValueSetter::Unset),
        ControlValue::Integer { default, step, .. } => match setter {
            ControlValueSetter::Integer(i) => diff_step_aligned(*i, *default, *step),
            _ => false,
        },
        ControlValue::IntegerRange { min, max, step, default, .. } => match setter {
            ControlValueSetter::Integer(i) => (*min as i64) < *i && *i < (*max as i64)
                && diff_step_aligned(*i, *default as i64, *step as i64),
            _ => false,
        },
        ControlValue::Boolean { .. } => matches!(setter, ControlValueSetter::Boolean(_)),
        ControlValue::String { .. } => matches!(setter, ControlValueSetter::String(_)),
        ControlValue::Bytes { .. } => matches!(setter, ControlValueSetter::Bytes(_)),
        ControlValue::KeyValuePair { .. } => matches!(setter, ControlValueSetter::KeyValue(_, _)),
        ControlValue::EnumValues { possible, .. } => match setter {
            ControlValueSetter::EnumValue(e) => contains_i64(possible, *e),
            _ => false,
        },
    }
}

/// Whether `step` accepts `value`: a step of zero constrains nothing, any
/// other step demands that the value be a multiple of it.
pub open spec fn step_aligned(value: int, step: int) -> bool {
    step == 0 || int_abs(value) % int_abs(step) == 0
}

/// The absolute value of a number.
pub open spec fn int_abs(a: int) -> int {
    if a >= 0 { a } else { -a }
}

/// Decide `step_aligned` on machine integers.
fn is_step_aligned(value: i32, step: i32) -> (r: bool)
    ensures
        r == step_aligned(value as int, step as int),
{
    if step == 0 {
        true
    } else {
        let av: u64 = if value >= 0 { value as u64 } else { (-(value as i64)) as u64 };
        let astep: u64 = if step >= 0 { step as u64 } else { (-(step as i64)) as u64 };
        av % astep == 0
    }
}

/// Whether a value is acceptable for a control with the given bounds and
/// step: strictly inside the (exclusive) bounds and aligned with the step.
pub open spec fn control_value_acceptable(min: int, max: int, step: int, value: int) -> bool {
    value < max && value > min && step_aligned(value, step)
}

/// Everything about one integer-valued camera control: its id, its exclusive
/// bounds, its current value, its step, its default, how it is managed, and
/// whether it is currently active.
///
/// The bounds are exclusive: a control whose `min` is 100 accepts 101 and up.
#[derive(Copy, Clone, Debug, Hash, Eq, PartialEq, Structural)]
pub struct CameraControl {
    pub control: KnownCameraControls,
    pub min: i32,
    pub max: i32,
    pub value: i32,
    pub step: i32,
    pub default: i32,
    pub flag: KnownCameraControlFlag,
    pub active: bool,
}

impl CameraControl {
    /// Create a control record, rejecting a value outside the exclusive
    /// bounds or off the step grid.
    pub fn new(
        control: KnownCameraControls,
        minimum: i32,
        maximum: i32,
        value: i32,
        step: i32,
        default: i32,
        flag: KnownCameraControlFlag,
        active: bool,
    ) -> (r: Result<CameraControl, NokhwaError>)
        ensures
            r is Ok <==> control_value_acceptable(
                minimum as int,
                maximum as int,
                step as int,
                value as int,
            ),
            r matches Ok(c) ==> c == (CameraControl {
                control,
                min: minimum,
                max: maximum,
                value,
                step,
                default,
                flag,
                active,
            }),
            r is Err ==> r == Err::<CameraControl, NokhwaError>(NokhwaError::ControlRejected),
    {
        if value >= maximum {
            return Err(NokhwaError::ControlRejected);
        }
        if value <= minimum {
            return Err(NokhwaError::ControlRejected);
        }
        if !is_step_aligned(value, step) {
            return Err(NokhwaError::ControlRejected);
        }
        Ok(CameraControl { control, min: minimum, max: maximum, value, step, default, flag, active })
    }

    /// Get the named control this record describes.
    pub fn control(&self) -> (r: KnownCameraControls)
        ensures
            r == self.control,
    {
        self.control
    }

    /// Get the exclusive lower bound.
    pub fn minimum_value(&self) -> (r: i32)
        ensures
            r == self.min,
    {
        self.min
    }

    /// Get the exclusive upper bound.
    pub fn maximum_value(&self) -> (r: i32)
        ensures
            r == self.max,
    {
        self.max
    }

    /// Get the current value.
    pub fn value(&self) -> (r: i32)
        ensures
            r == self.value,
    {
        self.value
    }

    /// Replace the current value, rejecting one outside the exclusive bounds
    /// or off the step grid; on rejection the control is unchanged.
    pub fn set_value(&mut self, value: i32) -> (r: Result<(), NokhwaError>)
        ensures
            r is Ok <==> control_value_acceptable(
                old(self).min as int,
                old(self).max as int,
                old(self).step as int,
                value as int,
            ),
            r is Ok ==> *final(self) == (CameraControl { value, ..*old(self) }),
            r is Err ==> *final(self) == *old(self) && r == Err::<(), NokhwaError>(
                NokhwaError::ControlRejected,
            ),
    {
        if value >= self.max {
            return Err(NokhwaError::ControlRejected);
        }
        if value <= self.min {
            return Err(NokhwaError::ControlRejected);
        }
        if !is_step_aligned(value, self.step) {
            return Err(NokhwaError::ControlRejected);
        }
        self.value = value;
        Ok(())
    }

    /// A copy of this control with a new value and `active` set; the same
    /// values are rejected as in `set_value`.
    pub fn with_value(self, value: i32) -> (r: Result<CameraControl, NokhwaError>)
        ensures
            r is Ok <==> control_value_acceptable(
                self.min as int,
                self.max as int,
                self.step as int,
                value as int,
            ),
            r matches Ok(c) ==> c == (CameraControl { value, active: true, ..self }),
            r is Err ==> r == Err::<CameraControl, NokhwaError>(NokhwaError::ControlRejected),
    {
        if value >= self.max {
            return Err(NokhwaError::ControlRejected);
        }
        if value <= self.min {
            return Err(NokhwaError::ControlRejected);
        }
        if !is_step_aligned(value, self.step) {
            return Err(NokhwaError::ControlRejected);
        }
        Ok(CameraControl { value, active: true, ..self })
    }

    /// Get the step; a value must be a multiple of it (a step of zero
    /// constrains nothing).
    pub fn step(&self) -> (r: i32)
        ensures
            r == self.step,
    {
        self.step
    }

    /// Get the default value.
    pub fn default(&self) -> (r: i32)
        ensures
            r == self.default,
    {
        self.default
    }

    /// Get how this control is managed.
    pub fn flag(&self) -> (r: KnownCameraControlFlag)
        ensures
            r == self.flag,
    {
        self.flag
    }

    /// Whether this control is currently active.
    pub fn active(&self) -> (r: bool)
        ensures
            r == self.active,
    {
        self.active
    }

    /// Mark this control active or inactive.
    pub fn set_active(&mut self, active: bool)
        ensures
            *final(self) == (CameraControl { active, ..*old(self) }),
    {
        self.active = active;
    }

    /// Every value the inclusive range `min..=max` offers when stepped by
    /// `step` from `min` upward.
    ///
    /// A negative step steps past the whole range at once, leaving only
    /// `min`.
    pub fn valid_values(&self) -> (r: Vec<i32>)
        requires
            self.step != 0,
        ensures
            r@ == spec_valid_values(self.min as int, self.max as int, self.step as int),
    {
        let mut out: Vec<i32> = Vec::new();
        if self.min > self.max {
            proof {
                assert(out@ =~= spec_valid_values(
                    self.min as int,
                    self.max as int,
                    self.step as int,
                ));
            }
            return out;
        }
        if self.step < 0 {
            out.push(self.min);
            proof {
                assert(out@ =~= spec_valid_values(
                    self.min as int,
                    self.max as int,
                    self.step as int,
                ));
            }
            return out;
        }
        let mut cur: i64 = self.min as i64;
        while cur <= self.max as i64
            invariant
                self.step >= 1,
                self.min as i64 <= cur,
                i32::MIN <= self.min,
                range_step(self.min as int, self.max as int, self.step as int) == out@ + range_step(
                    cur as int,
                    self.max as int,
                    self.step as int,
                ),
            decreases self.max as int + self.step as int - cur,
        {
            out.push(cur as i32);
            proof {
                assert(range_step(cur as int, self.max as int, self.step as int) == seq![
                    cur as i32,
                ] + range_step(cur + self.step as int, self.max as int, self.step as int));
                assert(out@ + range_step(cur + self.step as int, self.max as int, self.step as int)
                    =~= out@.drop_last() + (seq![cur as i32] + range_step(
                    cur + self.step as int,
                    self.max as int,
                    self.step as int,
                )));
            }
            cur = cur + self.step as i64;
        }
        proof {
            assert(range_step(cur as int, self.max as int, self.step as int) =~= Seq::<
                i32,
            >::empty());
            assert(out@ =~= out@ + Seq::<i32>::empty());
        }
        out
    }
}

/// The values `min..=max` stepped by `step` from `min` upward, for a
/// positive step.
pub open spec fn range_step(cur: int, max: int, step: int) -> Seq<i32>
    recommends
        step >= 1,
        i32::MIN <= cur,
        max <= i32::MAX,
    decreases (if cur <= max { max - cur + 1 } else { 0 }),
{
    if cur <= max && step >= 1 {
        seq![cur as i32] + range_step(cur + step, max, step)
    } else {
        Seq::empty()
    }
}

/// What `valid_values` returns: the stepped range for a positive step, only
/// `min` for a negative one (which steps past the whole range at once), and
/// nothing when the range is empty.
pub open spec fn spec_valid_values(min: int, max: int, step: int) -> Seq<i32> {
    if min > max {
        Seq::empty()
    } else if step < 0 {
        seq![min as i32]
    } else {
        range_step(min, max, step)
    }
}

} // verus!
