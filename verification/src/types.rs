//! Core value types: resolutions, camera identities, and backend selectors.

use vstd::prelude::*;
use vstd::string::StrSliceExecFns;
use vstd::string::StringExecFns;
use crate::error::NokhwaError;

verus! {

/// A frame resolution: a width and a height in pixels.
///
/// Resolutions are ordered by width first, then by height; `spec_lt` below is
/// that order, and it is what "highest resolution" means throughout the crate.
#[derive(Copy, Clone, Debug, Default, Hash, Eq, PartialEq, Structural)]
pub struct Resolution {
    pub width_x: u32,
    pub height_y: u32,
}

impl Resolution {
    /// The strict "smaller resolution" order: width first, then height.
    pub open spec fn spec_lt(self, other: Resolution) -> bool {
        self.width_x < other.width_x
            || (self.width_x == other.width_x && self.height_y < other.height_y)
    }

    /// The reflexive closure of `spec_lt`.
    pub open spec fn spec_le(self, other: Resolution) -> bool {
        self.spec_lt(other) || self == other
    }

    /// Create a new resolution from a width and a height.
    pub fn new(x: u32, y: u32) -> (r: Resolution)
        ensures
            r.width_x == x,
            r.height_y == y,
    {
        Resolution { width_x: x, height_y: y }
    }

    /// Get the width of the resolution.
    pub fn width(self) -> (r: u32)
        ensures
            r == self.width_x,
    {
        self.width_x
    }

    /// Get the height of the resolution.
    pub fn height(self) -> (r: u32)
        ensures
            r == self.height_y,
    {
        self.height_y
    }

    /// Get the x coordinate (width) of the resolution.
    pub fn x(self) -> (r: u32)
        ensures
            r == self.width_x,
    {
        self.width_x
    }

    /// Get the y coordinate (height) of the resolution.
    pub fn y(self) -> (r: u32)
        ensures
            r == self.height_y,
    {
        self.height_y
    }

    /// Decide the width-then-height order on resolutions.
    pub fn lt(self, other: Resolution) -> (r: bool)
        ensures
            r == self.spec_lt(other),
    {
        self.width_x < other.width_x
            || (self.width_x == other.width_x && self.height_y < other.height_y)
    }
}

/// The capture APIs a camera can be reached through.
///
/// `Auto` asks the library to pick the one native to the current platform.
#[derive(Copy, Clone, Debug, Hash, Eq, PartialEq, Structural)]
pub enum ApiBackend {
    Auto,
    AVFoundation,
    Video4Linux,
    MediaFoundation,
    Browser,
}

/// The older, wider list of capture APIs, kept for callers that still select
/// among the deprecated ones.
#[derive(Copy, Clone, Debug, Hash, Eq, PartialEq, Structural)]
pub enum CaptureAPIBackend {
    Auto,
    AVFoundation,
    Video4Linux,
    UniversalVideoClass,
    MediaFoundation,
    OpenCv,
    Network,
    Browser,
}

/// Which backend is native to an operating system, by the OS name as the
/// platform reports it (`"linux"`, `"macos"`, `"ios"`, `"windows"`).
pub open spec fn spec_backend_for_os(os: Seq<char>) -> Option<ApiBackend> {
    if os == "linux"@ {
        Some(ApiBackend::Video4Linux)
    } else if os == "macos"@ || os == "ios"@ {
        Some(ApiBackend::AVFoundation)
    } else if os == "windows"@ {
        Some(ApiBackend::MediaFoundation)
    } else {
        None
    }
}

/// Relies on `str`'s slice equality: true exactly when the two strings hold
/// the same characters.
#[verifier::external_body]
fn str_eq(a: &str, b: &str) -> (r: bool)
    ensures
        r == (a@ == b@),
{
    a == b
}

/// Pick the backend native to the named operating system, or none when the
/// platform has no native backend.
pub fn backend_for_os(os: &str) -> (r: Option<ApiBackend>)
    ensures
        r == spec_backend_for_os(os@),
{
    if str_eq(os, "linux") {
        Some(ApiBackend::Video4Linux)
    } else if str_eq(os, "macos") || str_eq(os, "ios") {
        Some(ApiBackend::AVFoundation)
    } else if str_eq(os, "windows") {
        Some(ApiBackend::MediaFoundation)
    } else {
        None
    }
}

/// The decimal digit character for a value between 0 and 9.
pub open spec fn digit_char(d: int) -> char
    recommends
        0 <= d <= 9,
{
    if d == 0 { '0' }
    else if d == 1 { '1' }
    else if d == 2 { '2' }
    else if d == 3 { '3' }
    else if d == 4 { '4' }
    else if d == 5 { '5' }
    else if d == 6 { '6' }
    else if d == 7 { '7' }
    else if d == 8 { '8' }
    else { '9' }
}

/// The decimal rendering of a nonnegative number, most significant digit
/// first, with no leading zeros (except for zero itself).
pub open spec fn dec_digits(n: int) -> Seq<char>
    recommends
        n >= 0,
    decreases n,
{
    if n <= 9 {
        seq![digit_char(n)]
    } else {
        dec_digits(n / 10).push(digit_char(n % 10))
    }
}

/// Whether a character is a decimal digit.
pub open spec fn is_dec_digit(c: char) -> bool {
    48 <= c as int <= 57
}

/// The numeric value of a decimal digit character.
pub open spec fn digit_val(c: char) -> int {
    c as int - 48
}

/// Whether every character of the sequence is a decimal digit.
pub open spec fn all_dec_digits(s: Seq<char>) -> bool {
    forall|i: int| 0 <= i < s.len() ==> is_dec_digit(#[trigger] s[i])
}

/// The number a sequence of decimal digit characters denotes.
pub open spec fn dec_value(s: Seq<char>) -> int
    decreases s.len(),
{
    if s.len() == 0 {
        0
    } else {
        dec_value(s.drop_last()) * 10 + digit_val(s.last())
    }
}

/// What `u32::from_str` accepts: an optional leading `+`, then at least one
/// decimal digit, denoting a value that fits in a `u32`.
pub open spec fn parse_u32_chars(s: Seq<char>) -> Option<u32> {
    let body = if s.len() > 0 && s[0] == '+' { s.drop_first() } else { s };
    if body.len() == 0 || !all_dec_digits(body) || dec_value(body) > u32::MAX {
        None
    } else {
        Some(dec_value(body) as u32)
    }
}

proof fn lemma_dec_value_nonneg(s: Seq<char>)
    requires
        all_dec_digits(s),
    ensures
        dec_value(s) >= 0,
    decreases s.len(),
{
    if s.len() > 0 {
        assert(all_dec_digits(s.drop_last())) by {
            assert(forall|i: int| 0 <= i < s.len() - 1 ==> s.drop_last()[i] == #[trigger] s[i]);
        }
        lemma_dec_value_nonneg(s.drop_last());
    }
}

proof fn lemma_dec_value_take_le(s: Seq<char>, j: int)
    requires
        all_dec_digits(s),
        0 <= j <= s.len(),
    ensures
        dec_value(s.take(j)) <= dec_value(s),
    decreases s.len() - j,
{
    if j < s.len() {
        lemma_dec_value_take_le(s, j + 1);
        let t = s.take(j + 1);
        assert(t.drop_last() =~= s.take(j));
        assert(t.last() == s[j]);
        assert(all_dec_digits(s.take(j))) by {
            assert(forall|i: int| 0 <= i < j ==> s.take(j)[i] == #[trigger] s[i]);
        }
        lemma_dec_value_nonneg(s.take(j));
        assert(dec_value(t) == dec_value(s.take(j)) * 10 + digit_val(s[j]));
        assert(dec_value(s.take(j)) * 10 >= dec_value(s.take(j))) by (nonlinear_arith)
            requires dec_value(s.take(j)) >= 0;
    } else {
        assert(s.take(j) =~= s);
    }
}

proof fn lemma_dec_digits_are_digits(n: int)
    requires
        n >= 0,
    ensures
        all_dec_digits(dec_digits(n)),
        dec_digits(n).len() >= 1,
    decreases n,
{
    if n <= 9 {
        assert(is_dec_digit(digit_char(n)));
        assert(forall|i: int|
            0 <= i < dec_digits(n).len() ==> is_dec_digit(#[trigger] dec_digits(n)[i]));
    } else {
        lemma_dec_digits_are_digits(n / 10);
        let s = dec_digits(n / 10);
        let w = s.push(digit_char(n % 10));
        assert(0 <= n % 10 <= 9);
        assert(is_dec_digit(digit_char(n % 10)));
        assert forall|i: int| 0 <= i < w.len() implies is_dec_digit(#[trigger] w[i]) by {
            if i < s.len() {
                assert(w[i] == s[i]);
            } else {
                assert(w[i] == digit_char(n % 10));
            }
        }
    }
}

proof fn lemma_dec_value_of_digits(n: int)
    requires
        n >= 0,
    ensures
        dec_value(dec_digits(n)) == n,
    decreases n,
{
    if n <= 9 {
        assert(dec_digits(n) =~= seq![digit_char(n)]);
        assert(digit_val(digit_char(n)) == n);
        assert(seq![digit_char(n)].drop_last() =~= Seq::<char>::empty());
        assert(dec_value(Seq::<char>::empty()) == 0);
        assert(seq![digit_char(n)].last() == digit_char(n));
    } else {
        lemma_dec_value_of_digits(n / 10);
        let w = dec_digits(n / 10).push(digit_char(n % 10));
        assert(w.drop_last() =~= dec_digits(n / 10));
        assert(w.last() == digit_char(n % 10));
        assert(digit_val(digit_char(n % 10)) == n % 10);
        vstd::arithmetic::div_mod::lemma_fundamental_div_mod(n, 10);
    }
}

/// The numeric and string forms of an index interconvert faithfully:
/// rendering a number in decimal and parsing the rendering back yields the
/// same number. So `as_index` after `as_string` on a numeric `CameraIndex`
/// recovers exactly the original ordinal.
pub proof fn lemma_index_round_trip(n: u32)
    ensures
        parse_u32_chars(dec_digits(n as int)) == Some(n),
{
    let s = dec_digits(n as int);
    lemma_dec_digits_are_digits(n as int);
    lemma_dec_value_of_digits(n as int);
    assert(s[0] != '+') by {
        assert(is_dec_digit(s[0]));
        assert('+' as int == 43);
    }
}

/// Parse a decimal `u32` from a string, accepting what `u32::from_str`
/// accepts.
fn parse_u32_str(s: &str) -> (r: Option<u32>)
    ensures
        r == parse_u32_chars(s@),
{
    let n = s.unicode_len();
    let start: usize = if n > 0 && s.get_char(0) == '+' { 1 } else { 0 };
    let ghost body = if s@.len() > 0 && s@[0] == '+' { s@.drop_first() } else { s@ };
    assert(body.len() == n - start);
    assert(forall|k: int| 0 <= k < body.len() ==> body[k] == s@[k + start]);
    if start >= n {
        return None;
    }
    let mut val: u32 = 0;
    let mut i: usize = start;
    while i < n
        invariant
            start <= i <= n,
            n == s@.len(),
            start <= 1,
            body.len() == n - start,
            forall|k: int| 0 <= k < body.len() ==> body[k] == s@[k + start],
            all_dec_digits(body.take(i - start)),
            val == dec_value(body.take(i - start)),
            body == (if s@.len() > 0 && s@[0] == '+' { s@.drop_first() } else { s@ }),
        decreases n - i,
    {
        let c = s.get_char(i);
        let cv = c as u32;
        if cv < 48 || cv > 57 {
            assert(!is_dec_digit(body[i - start]));
            assert(!all_dec_digits(body));
            return None;
        }
        let d = cv - 48;
        let nv: u64 = val as u64 * 10 + d as u64;
        proof {
            let t = body.take(i - start + 1);
            assert(t.drop_last() =~= body.take(i - start));
            assert(t.last() == body[i - start]);
        }
        if nv > u32::MAX as u64 {
            proof {
                if all_dec_digits(body) {
                    lemma_dec_value_take_le(body, i - start + 1);
                }
            }
            return None;
        }
        val = nv as u32;
        i = i + 1;
    }
    proof {
        assert(body.take(i - start) =~= body);
    }
    Some(val)
}

/// An owned copy of a string slice.
pub(crate) fn str_to_string(s: &str) -> (r: String)
    ensures
        r@ == s@,
{
    s.to_owned()
}

/// The one-character string for a decimal digit.
fn digit_str(d: u32) -> (s: &'static str)
    requires
        d <= 9,
    ensures
        s@ == seq![digit_char(d as int)],
{
    proof {
        reveal_strlit("0");
        reveal_strlit("1");
        reveal_strlit("2");
        reveal_strlit("3");
        reveal_strlit("4");
        reveal_strlit("5");
        reveal_strlit("6");
        reveal_strlit("7");
        reveal_strlit("8");
        reveal_strlit("9");
    }
    if d == 0 { "0" }
    else if d == 1 { "1" }
    else if d == 2 { "2" }
    else if d == 3 { "3" }
    else if d == 4 { "4" }
    else if d == 5 { "5" }
    else if d == 6 { "6" }
    else if d == 7 { "7" }
    else if d == 8 { "8" }
    else { "9" }
}

/// Append the decimal rendering of `n` to `s`.
fn push_dec(n: u32, s: &mut String)
    ensures
        final(s)@ == old(s)@ + dec_digits(n as int),
    decreases n,
{
    if n <= 9 {
        s.append(digit_str(n));
    } else {
        push_dec(n / 10, s);
        s.append(digit_str(n % 10));
        assert(final(s)@ == old(s)@ + dec_digits(n as int));
    }
}

/// Render a number in decimal.
fn u32_to_string(n: u32) -> (r: String)
    ensures
        r@ == dec_digits(n as int),
{
    let mut s = String::new();
    push_dec(n, &mut s);
    s
}

/// How a caller names a camera: either a numeric ordinal, or an opaque string
/// id used for devices (such as network cameras) that have no ordinal.
///
/// The two forms never interconvert silently; `as_index` converts the string
/// form only by parsing it as a decimal number.
#[derive(Clone, Debug, Hash, Ord, PartialOrd, Eq, PartialEq)]
pub enum CameraIndex {
    Index(u32),
    String(String),
}

impl CameraIndex {
    /// Turn this index into a number. A string id is parsed as a decimal
    /// `u32`; a string that does not denote such a number is reported as
    /// `DeviceNotFound`.
    pub fn as_index(&self) -> (r: Result<u32, NokhwaError>)
        ensures
            self matches CameraIndex::Index(i) ==> r == Ok::<u32, NokhwaError>(*i),
            self matches CameraIndex::String(s) ==> r == (match parse_u32_chars(s@) {
                Some(v) => Ok::<u32, NokhwaError>(v),
                None => Err::<u32, NokhwaError>(NokhwaError::DeviceNotFound),
            }),
    {
        match self {
            CameraIndex::Index(i) => Ok(*i),
            CameraIndex::String(s) => match parse_u32_str(s.as_str()) {
                Some(v) => Ok(v),
                None => Err(NokhwaError::DeviceNotFound),
            },
        }
    }

    /// Turn this index into a string. A numeric ordinal is rendered in
    /// decimal.
    pub fn as_string(&self) -> (r: String)
        ensures
            self matches CameraIndex::Index(i) ==> r@ == dec_digits(i as int),
            self matches CameraIndex::String(s) ==> r@ == s@,
    {
        match self {
            CameraIndex::Index(i) => u32_to_string(*i),
            CameraIndex::String(s) => str_to_string(s.as_str()),
        }
    }

    /// True when this is the numeric form.
    pub fn is_index(&self) -> (r: bool)
        ensures
            r == (self is Index),
    {
        match self {
            CameraIndex::Index(_) => true,
            CameraIndex::String(_) => false,
        }
    }

    /// True when this is the string form.
    pub fn is_string(&self) -> (r: bool)
        ensures
            r == (self is String),
    {
        !self.is_index()
    }
}

impl Default for CameraIndex {
    /// The first numeric ordinal.
    fn default() -> (r: CameraIndex)
        ensures
            r == CameraIndex::Index(0u32),
    {
        CameraIndex::Index(0)
    }
}

/// The camera controls this crate knows across backends, by name, with an
/// escape hatch for platform-specific control ids.
#[derive(Copy, Clone, Debug, Hash, Eq, PartialEq, Structural)]
pub enum KnownCameraControl {
    Brightness,
    Contrast,
    Hue,
    Saturation,
    Sharpness,
    Gamma,
    WhiteBalance,
    BacklightComp,
    Gain,
    Pan,
    Tilt,
    Zoom,
    Exposure,
    Iris,
    Focus,
    /// Any other control, by its platform-specific id.
    Other(u128),
}

/// Every named control of `KnownCameraControl`, in a fixed order; the
/// platform-specific `Other` ids are open-ended and not listed.
pub fn all_known_camera_controls() -> (r: [KnownCameraControl; 15])
    ensures
        r@ == seq![
            KnownCameraControl::Brightness,
            KnownCameraControl::Contrast,
            KnownCameraControl::Hue,
            KnownCameraControl::Saturation,
            KnownCameraControl::Sharpness,
            KnownCameraControl::Gamma,
            KnownCameraControl::WhiteBalance,
            KnownCameraControl::BacklightComp,
            KnownCameraControl::Gain,
            KnownCameraControl::Pan,
            KnownCameraControl::Tilt,
            KnownCameraControl::Zoom,
            KnownCameraControl::Exposure,
            KnownCameraControl::Iris,
            KnownCameraControl::Focus,
        ],
{
    [
        KnownCameraControl::Brightness,
        KnownCameraControl::Contrast,
        KnownCameraControl::Hue,
        KnownCameraControl::Saturation,
        KnownCameraControl::Sharpness,
        KnownCameraControl::Gamma,
        KnownCameraControl::WhiteBalance,
        KnownCameraControl::BacklightComp,
        KnownCameraControl::Gain,
        KnownCameraControl::Pan,
        KnownCameraControl::Tilt,
        KnownCameraControl::Zoom,
        KnownCameraControl::Exposure,
        KnownCameraControl::Iris,
        KnownCameraControl::Focus,
    ]
}

/// The identity of an enumerated camera: a unique id, a human-readable name,
/// and whatever the backend reports about manufacturer, model, device type,
/// and position. Immutable once returned by enumeration.
#[derive(Clone, Debug, Hash, Eq, PartialEq)]
pub struct CameraInfo {
    pub unique_id: String,
    pub name: String,
    pub manufacturer: Option<String>,
    pub model: Option<String>,
    pub device_type: Option<String>,
    pub position: Option<String>,
}

impl CameraInfo {
    /// Create a new camera identity record.
    pub fn new(
        unique_id: &str,
        name: &str,
        manufacturer: &str,
        model: &str,
        device_type: &str,
        position: &str,
    ) -> (r: CameraInfo)
        ensures
            r.unique_id@ == unique_id@,
            r.name@ == name@,
            r.manufacturer matches Some(m) && m@ == manufacturer@,
            r.model matches Some(m) && m@ == model@,
            r.device_type matches Some(m) && m@ == device_type@,
            r.position matches Some(m) && m@ == position@,
    {
        CameraInfo {
            unique_id: str_to_string(unique_id),
            name: str_to_string(name),
            manufacturer: Some(str_to_string(manufacturer)),
            model: Some(str_to_string(model)),
            device_type: Some(str_to_string(device_type)),
            position: Some(str_to_string(position)),
        }
    }

    /// Get the human-readable name.
    pub fn name(&self) -> (r: String)
        ensures
            r@ == self.name@,
    {
        str_to_string(self.name.as_str())
    }

    /// Get the unique id.
    pub fn unique_id(&self) -> (r: String)
        ensures
            r@ == self.unique_id@,
    {
        str_to_string(self.unique_id.as_str())
    }

    /// Get the manufacturer, where the backend reported one.
    pub fn manufacturer(&self) -> (r: Option<String>)
        ensures
            r is Some <==> self.manufacturer is Some,
            self.manufacturer matches Some(s) ==> r matches Some(m) && m@ == s@,
    {
        match &self.manufacturer {
            Some(s) => Some(str_to_string(s.as_str())),
            None => None,
        }
    }

    /// Get the model, where the backend reported one.
    pub fn model(&self) -> (r: Option<String>)
        ensures
            r is Some <==> self.model is Some,
            self.model matches Some(s) ==> r matches Some(m) && m@ == s@,
    {
        match &self.model {
            Some(s) => Some(str_to_string(s.as_str())),
            None => None,
        }
    }

    /// Get the device type, where the backend reported one.
    pub fn device_type(&self) -> (r: Option<String>)
        ensures
            r is Some <==> self.device_type is Some,
            self.device_type matches Some(s) ==> r matches Some(m) && m@ == s@,
    {
        match &self.device_type {
            Some(s) => Some(str_to_string(s.as_str())),
            None => None,
        }
    }

    /// Get the position, where the backend reported one.
    pub fn position(&self) -> (r: Option<String>)
        ensures
            r is Some <==> self.position is Some,
            self.position matches Some(s) ==> r matches Some(m) && m@ == s@,
    {
        match &self.position {
            Some(s) => Some(str_to_string(s.as_str())),
            None => None,
        }
    }
}

} // verus!
