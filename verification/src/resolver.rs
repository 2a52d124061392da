//! Format negotiation: resolving an abstract format request against the
//! concrete formats a device reports.

use vstd::prelude::*;
use crate::format::CameraFormat;
use crate::types::Resolution;

verus! {

/// What the caller asks of format negotiation.
///
/// - `AbsoluteHighestResolution`: the highest resolution on offer; among
///   entries tied at that resolution, the highest frame rate.
/// - `AbsoluteHighestFrameRate`: the highest frame rate on offer; among
///   entries tied at that rate, the highest resolution.
/// - `HighestResolution(res)`: only entries whose resolution is exactly
///   `res`; among them, the highest frame rate. No entry at `res` means no
///   match — there is no nearest-resolution fallback.
/// - `HighestFrameRate(fps)`: only entries whose frame rate is exactly
///   `fps`; among them, the highest resolution. No fallback either.
/// - `Closest(target)`: a two-stage nearest match among entries sharing the
///   target's encoding (encodings are never crossed): first the resolution at
///   minimum squared Euclidean distance from the target's, then, among
///   entries at that resolution, the frame rate nearest the target's. The
///   returned format combines those two choices with the target's encoding.
/// - `Any`: accept anything — the first entry in the device's own order.
#[derive(Copy, Clone, Debug, Hash, Eq, PartialEq, Structural, Default)]
pub enum RequestedFormatType {
    AbsoluteHighestResolution,
    AbsoluteHighestFrameRate,
    HighestResolution(Resolution),
    HighestFrameRate(u32),
    Closest(CameraFormat),
    #[default]
    Any,
}

/// The absolute difference of two numbers.
pub open spec fn abs_diff(a: int, b: int) -> int {
    if a >= b { a - b } else { b - a }
}

/// Squared Euclidean distance between two resolutions in (width, height)
/// space.
pub open spec fn res_dist(a: Resolution, b: Resolution) -> int {
    (a.width_x - b.width_x) * (a.width_x - b.width_x)
        + (a.height_y - b.height_y) * (a.height_y - b.height_y)
}

/// Compute the squared Euclidean distance between two resolutions.
fn res_dist_exec(a: Resolution, b: Resolution) -> (r: u128)
    ensures
        r as int == res_dist(a, b),
{
    let dw: u64 = if a.width_x >= b.width_x {
        (a.width_x - b.width_x) as u64
    } else {
        (b.width_x - a.width_x) as u64
    };
    let dh: u64 = if a.height_y >= b.height_y {
        (a.height_y - b.height_y) as u64
    } else {
        (b.height_y - a.height_y) as u64
    };
    proof {
        assert(dw as int * dw as int == (a.width_x - b.width_x) * (a.width_x
            - b.width_x)) by (nonlinear_arith)
            requires
                dw as int == a.width_x - b.width_x || dw as int == b.width_x - a.width_x,
        ;
        assert(dh as int * dh as int == (a.height_y - b.height_y) * (a.height_y
            - b.height_y)) by (nonlinear_arith)
            requires
                dh as int == a.height_y - b.height_y || dh as int == b.height_y - a.height_y,
        ;
        assert((dw as u128) * (dw as u128) <= 0xffff_fffe_0000_0001u128) by (nonlinear_arith)
            requires
                dw <= 0xffff_ffffu64,
        ;
        assert((dh as u128) * (dh as u128) <= 0xffff_fffe_0000_0001u128) by (nonlinear_arith)
            requires
                dh <= 0xffff_ffffu64,
        ;
    }
    (dw as u128) * (dw as u128) + (dh as u128) * (dh as u128)
}

/// "`b` is at least as good as `a`" under the absolute-highest-resolution
/// policy: higher resolution wins, then higher frame rate. Among exact ties
/// the later entry is preferred, so a scan that replaces on this relation
/// keeps the last of several equal entries.
pub open spec fn prefers_ahr(a: CameraFormat, b: CameraFormat) -> bool {
    a.resolution.spec_lt(b.resolution)
        || (a.resolution == b.resolution && a.frame_rate <= b.frame_rate)
}

/// "`b` is at least as good as `a`" under the absolute-highest-frame-rate
/// policy: higher frame rate wins, then higher resolution.
pub open spec fn prefers_afr(a: CameraFormat, b: CameraFormat) -> bool {
    a.frame_rate < b.frame_rate
        || (a.frame_rate == b.frame_rate && a.resolution.spec_le(b.resolution))
}

/// The entry the absolute-highest-resolution policy selects: the last entry
/// that no other entry beats on (resolution, then frame rate).
pub open spec fn pick_ahr(s: Seq<CameraFormat>) -> Option<CameraFormat>
    decreases s.len(),
{
    if s.len() == 0 {
        None
    } else {
        let x = s.last();
        match pick_ahr(s.drop_last()) {
            None => Some(x),
            Some(b) => if prefers_ahr(b, x) { Some(x) } else { Some(b) },
        }
    }
}

/// The entry the absolute-highest-frame-rate policy selects.
pub open spec fn pick_afr(s: Seq<CameraFormat>) -> Option<CameraFormat>
    decreases s.len(),
{
    if s.len() == 0 {
        None
    } else {
        let x = s.last();
        match pick_afr(s.drop_last()) {
            None => Some(x),
            Some(b) => if prefers_afr(b, x) { Some(x) } else { Some(b) },
        }
    }
}

/// Among entries whose resolution is exactly `res`, the last one with the
/// highest frame rate; none when no entry has that resolution.
pub open spec fn pick_highest_fps_at(s: Seq<CameraFormat>, res: Resolution) -> Option<CameraFormat>
    decreases s.len(),
{
    if s.len() == 0 {
        None
    } else {
        let prev = pick_highest_fps_at(s.drop_last(), res);
        let x = s.last();
        if x.resolution == res {
            match prev {
                None => Some(x),
                Some(b) => if b.frame_rate <= x.frame_rate { Some(x) } else { Some(b) },
            }
        } else {
            prev
        }
    }
}

/// Among entries whose frame rate is exactly `fps`, the last one with the
/// highest resolution; none when no entry has that rate.
pub open spec fn pick_highest_res_at(s: Seq<CameraFormat>, fps: u32) -> Option<CameraFormat>
    decreases s.len(),
{
    if s.len() == 0 {
        None
    } else {
        let prev = pick_highest_res_at(s.drop_last(), fps);
        let x = s.last();
        if x.frame_rate == fps {
            match prev {
                None => Some(x),
                Some(b) => if b.resolution.spec_le(x.resolution) { Some(x) } else { Some(b) },
            }
        } else {
            prev
        }
    }
}

/// Among entries sharing the target's encoding, the resolution nearest the
/// target's by squared Euclidean distance; on distance ties the earliest
/// entry wins. None when no entry has the target's encoding.
pub open spec fn pick_closest_res(s: Seq<CameraFormat>, c: CameraFormat) -> Option<Resolution>
    decreases s.len(),
{
    if s.len() == 0 {
        None
    } else {
        let prev = pick_closest_res(s.drop_last(), c);
        let x = s.last();
        if x.format == c.format {
            match prev {
                None => Some(x.resolution),
                Some(b) => if res_dist(x.resolution, c.resolution) < res_dist(b, c.resolution) {
                    Some(x.resolution)
                } else {
                    Some(b)
                },
            }
        } else {
            prev
        }
    }
}

/// Among entries sharing the target's encoding at the given resolution, the
/// frame rate nearest the target's by absolute difference; on ties the
/// earliest entry wins.
pub open spec fn pick_closest_fps(s: Seq<CameraFormat>, c: CameraFormat, res: Resolution) -> Option<
    u32,
>
    decreases s.len(),
{
    if s.len() == 0 {
        None
    } else {
        let prev = pick_closest_fps(s.drop_last(), c, res);
        let x = s.last();
        if x.format == c.format && x.resolution == res {
            match prev {
                None => Some(x.frame_rate),
                Some(b) => if abs_diff(x.frame_rate as int, c.frame_rate as int) < abs_diff(
                    b as int,
                    c.frame_rate as int,
                ) {
                    Some(x.frame_rate)
                } else {
                    Some(b)
                },
            }
        } else {
            prev
        }
    }
}

/// The two-stage nearest match: restrict to the target's encoding, pick the
/// resolution at minimum squared Euclidean distance, then among entries at
/// that resolution pick the frame rate nearest the target's. The result
/// combines those two independent choices with the target's encoding.
pub open spec fn pick_closest(s: Seq<CameraFormat>, c: CameraFormat) -> Option<CameraFormat> {
    match pick_closest_res(s, c) {
        None => None,
        Some(res) => match pick_closest_fps(s, c, res) {
            None => None,
            Some(fr) => Some(CameraFormat { resolution: res, format: c.format, frame_rate: fr }),
        },
    }
}

/// What the resolver returns for a request over a list of reported formats.
pub open spec fn resolve_spec(req: RequestedFormatType, s: Seq<CameraFormat>) -> Option<
    CameraFormat,
> {
    match req {
        RequestedFormatType::AbsoluteHighestResolution => pick_ahr(s),
        RequestedFormatType::AbsoluteHighestFrameRate => pick_afr(s),
        RequestedFormatType::HighestResolution(res) => pick_highest_fps_at(s, res),
        RequestedFormatType::HighestFrameRate(fps) => pick_highest_res_at(s, fps),
        RequestedFormatType::Closest(c) => pick_closest(s, c),
        RequestedFormatType::Any => if s.len() == 0 { None } else { Some(s[0]) },
    }
}

/// A request to the camera for a format it can actually produce.
#[derive(Copy, Clone, Debug, Hash, Eq, PartialEq, Structural)]
pub struct RequestedFormat {
    pub requested_format: RequestedFormatType,
}

impl RequestedFormat {
    /// Wrap a policy as a request.
    pub fn new(requested: RequestedFormatType) -> (r: RequestedFormat)
        ensures
            r.requested_format == requested,
    {
        RequestedFormat { requested_format: requested }
    }

    /// Request the format closest to a concrete one.
    pub fn from_camera_format(format: CameraFormat) -> (r: RequestedFormat)
        ensures
            r.requested_format == RequestedFormatType::Closest(format),
    {
        RequestedFormat { requested_format: RequestedFormatType::Closest(format) }
    }

    /// Resolve this request against every format the device reports.
    ///
    /// The list may be empty, unsorted, or hold duplicates; it is read, never
    /// changed, and the outcome is a function of the request and the list
    /// alone. An empty list never resolves. A resolved format is always one
    /// of the listed entries.
    pub fn fulfill(&self, all_formats: &[CameraFormat]) -> (r: Option<CameraFormat>)
        ensures
            r == resolve_spec(self.requested_format, all_formats@),
            all_formats@.len() == 0 ==> r is None,
            r matches Some(f) ==> all_formats@.contains(f),
    {
        proof {
            lemma_resolve_in_available(self.requested_format, all_formats@);
        }
        let n = all_formats.len();
        match self.requested_format {
            RequestedFormatType::AbsoluteHighestResolution => {
                let mut best: Option<CameraFormat> = None;
                let mut i: usize = 0;
                while i < n
                    invariant
                        0 <= i <= n,
                        n == all_formats@.len(),
                        best == pick_ahr(all_formats@.take(i as int)),
                    decreases n - i,
                {
                    let x = all_formats[i];
                    best = match best {
                        None => Some(x),
                        Some(b) => {
                            if b.resolution.lt(x.resolution)
                                || (b.resolution == x.resolution && b.frame_rate <= x.frame_rate) {
                                Some(x)
                            } else {
                                Some(b)
                            }
                        },
                    };
                    proof {
                        assert(all_formats@.take(i + 1).drop_last() =~= all_formats@.take(i as int));
                    }
                    i = i + 1;
                }
                proof {
                    assert(all_formats@.take(n as int) =~= all_formats@);
                }
                best
            },
            RequestedFormatType::AbsoluteHighestFrameRate => {
                let mut best: Option<CameraFormat> = None;
                let mut i: usize = 0;
                while i < n
                    invariant
                        0 <= i <= n,
                        n == all_formats@.len(),
                        best == pick_afr(all_formats@.take(i as int)),
                    decreases n - i,
                {
                    let x = all_formats[i];
                    best = match best {
                        None => Some(x),
                        Some(b) => {
                            if b.frame_rate < x.frame_rate
                                || (b.frame_rate == x.frame_rate
                                    && (b.resolution.lt(x.resolution) || b.resolution == x.resolution)) {
                                Some(x)
                            } else {
                                Some(b)
                            }
                        },
                    };
                    proof {
                        assert(all_formats@.take(i + 1).drop_last() =~= all_formats@.take(i as int));
                    }
                    i = i + 1;
                }
                proof {
                    assert(all_formats@.take(n as int) =~= all_formats@);
                }
                best
            },
            RequestedFormatType::HighestResolution(res) => {
                let mut best: Option<CameraFormat> = None;
                let mut i: usize = 0;
                while i < n
                    invariant
                        0 <= i <= n,
                        n == all_formats@.len(),
                        best == pick_highest_fps_at(all_formats@.take(i as int), res),
                    decreases n - i,
                {
                    let x = all_formats[i];
                    if x.resolution == res {
                        best = match best {
                            None => Some(x),
                            Some(b) => if b.frame_rate <= x.frame_rate { Some(x) } else { Some(b) },
                        };
                    }
                    proof {
                        assert(all_formats@.take(i + 1).drop_last() =~= all_formats@.take(i as int));
                    }
                    i = i + 1;
                }
                proof {
                    assert(all_formats@.take(n as int) =~= all_formats@);
                }
                best
            },
            RequestedFormatType::HighestFrameRate(fps) => {
                let mut best: Option<CameraFormat> = None;
                let mut i: usize = 0;
                while i < n
                    invariant
                        0 <= i <= n,
                        n == all_formats@.len(),
                        best == pick_highest_res_at(all_formats@.take(i as int), fps),
                    decreases n - i,
                {
                    let x = all_formats[i];
                    if x.frame_rate == fps {
                        best = match best {
                            None => Some(x),
                            Some(b) => {
                                if b.resolution.lt(x.resolution) || b.resolution == x.resolution {
                                    Some(x)
                                } else {
                                    Some(b)
                                }
                            },
                        };
                    }
                    proof {
                        assert(all_formats@.take(i + 1).drop_last() =~= all_formats@.take(i as int));
                    }
                    i = i + 1;
                }
                proof {
                    assert(all_formats@.take(n as int) =~= all_formats@);
                }
                best
            },
            RequestedFormatType::Closest(c) => {
                let mut best_res: Option<Resolution> = None;
                let mut best_dist: u128 = 0;
                let mut i: usize = 0;
                while i < n
                    invariant
                        0 <= i <= n,
                        n == all_formats@.len(),
                        best_res == pick_closest_res(all_formats@.take(i as int), c),
                        best_res matches Some(b) ==> best_dist as int == res_dist(b, c.resolution),
                    decreases n - i,
                {
                    let x = all_formats[i];
                    if x.format == c.format {
                        let dx = res_dist_exec(x.resolution, c.resolution);
                        match best_res {
                            None => {
                                best_dist = dx;
                                best_res = Some(x.resolution);
                            },
                            Some(_) => {
                                if dx < best_dist {
                                    best_dist = dx;
                                    best_res = Some(x.resolution);
                                }
                            },
                        }
                    }
                    proof {
                        assert(all_formats@.take(i + 1).drop_last() =~= all_formats@.take(i as int));
                    }
                    i = i + 1;
                }
                proof {
                    assert(all_formats@.take(n as int) =~= all_formats@);
                }
                match best_res {
                    None => None,
                    Some(res) => {
                        let mut best_fr: Option<u32> = None;
                        let mut best_diff: u32 = 0;
                        let mut i: usize = 0;
                        while i < n
                            invariant
                                0 <= i <= n,
                                n == all_formats@.len(),
                                best_fr == pick_closest_fps(all_formats@.take(i as int), c, res),
                                best_fr matches Some(b) ==> best_diff as int == abs_diff(
                                    b as int,
                                    c.frame_rate as int,
                                ),
                            decreases n - i,
                        {
                            let x = all_formats[i];
                            if x.format == c.format && x.resolution == res {
                                let dx = if x.frame_rate >= c.frame_rate {
                                    x.frame_rate - c.frame_rate
                                } else {
                                    c.frame_rate - x.frame_rate
                                };
                                match best_fr {
                                    None => {
                                        best_diff = dx;
                                        best_fr = Some(x.frame_rate);
                                    },
                                    Some(_) => {
                                        if dx < best_diff {
                                            best_diff = dx;
                                            best_fr = Some(x.frame_rate);
                                        }
                                    },
                                }
                            }
                            proof {
                                assert(all_formats@.take(i + 1).drop_last() =~= all_formats@.take(
                                    i as int,
                                ));
                            }
                            i = i + 1;
                        }
                        proof {
                            assert(all_formats@.take(n as int) =~= all_formats@);
                        }
                        match best_fr {
                            None => None,
                            Some(fr) => Some(
                                CameraFormat { resolution: res, format: c.format, frame_rate: fr },
                            ),
                        }
                    },
                }
            },
            RequestedFormatType::Any => {
                if n == 0 {
                    None
                } else {
                    Some(all_formats[0])
                }
            },
        }
    }
}

/// The resolver is deterministic: for one `(request, available)` pair there
/// is one outcome, so any two results that meet `fulfill`'s contract are the
/// same value.
pub proof fn lemma_resolver_deterministic(
    req: RequestedFormatType,
    s: Seq<CameraFormat>,
    r1: Option<CameraFormat>,
    r2: Option<CameraFormat>,
)
    requires
        r1 == resolve_spec(req, s),
        r2 == resolve_spec(req, s),
    ensures
        r1 == r2,
{
}

/// On an empty list of available formats, every request resolves to none.
pub proof fn lemma_resolve_empty(req: RequestedFormatType)
    ensures
        resolve_spec(req, Seq::<CameraFormat>::empty()) is None,
{
}

proof fn lemma_contains_drop_last(s: Seq<CameraFormat>, x: CameraFormat)
    requires
        s.len() > 0,
        s.drop_last().contains(x),
    ensures
        s.contains(x),
{
    let i = choose|i: int| 0 <= i < s.drop_last().len() && s.drop_last()[i] == x;
    assert(s[i] == x);
}

proof fn lemma_pick_ahr_basic(s: Seq<CameraFormat>)
    ensures
        pick_ahr(s) is Some <==> s.len() > 0,
        pick_ahr(s) matches Some(f) ==> s.contains(f),
    decreases s.len(),
{
    if s.len() > 0 {
        lemma_pick_ahr_basic(s.drop_last());
        match pick_ahr(s.drop_last()) {
            Some(b) => lemma_contains_drop_last(s, b),
            None => {},
        }
        assert(s[s.len() - 1] == s.last());
    }
}

proof fn lemma_pick_afr_basic(s: Seq<CameraFormat>)
    ensures
        pick_afr(s) is Some <==> s.len() > 0,
        pick_afr(s) matches Some(f) ==> s.contains(f),
    decreases s.len(),
{
    if s.len() > 0 {
        lemma_pick_afr_basic(s.drop_last());
        match pick_afr(s.drop_last()) {
            Some(b) => lemma_contains_drop_last(s, b),
            None => {},
        }
        assert(s[s.len() - 1] == s.last());
    }
}

proof fn lemma_pick_highest_fps_at_basic(s: Seq<CameraFormat>, res: Resolution)
    ensures
        pick_highest_fps_at(s, res) is Some <==> exists|i: int|
            0 <= i < s.len() && #[trigger] s[i].resolution == res,
        pick_highest_fps_at(s, res) matches Some(f) ==> s.contains(f) && f.resolution == res,
    decreases s.len(),
{
    if s.len() > 0 {
        lemma_pick_highest_fps_at_basic(s.drop_last(), res);
        match pick_highest_fps_at(s.drop_last(), res) {
            Some(b) => lemma_contains_drop_last(s, b),
            None => {},
        }
        if exists|i: int| 0 <= i < s.drop_last().len() && #[trigger] s.drop_last()[i].resolution == res {
            let i = choose|i: int|
                0 <= i < s.drop_last().len() && #[trigger] s.drop_last()[i].resolution == res;
            assert(s[i].resolution == res);
        }
        if exists|i: int| 0 <= i < s.len() && #[trigger] s[i].resolution == res {
            let i = choose|i: int| 0 <= i < s.len() && #[trigger] s[i].resolution == res;
            if i < s.len() - 1 {
                assert(s.drop_last()[i].resolution == res);
            }
        }
        assert(s[s.len() - 1] == s.last());
    }
}

proof fn lemma_pick_highest_res_at_basic(s: Seq<CameraFormat>, fps: u32)
    ensures
        pick_highest_res_at(s, fps) is Some <==> exists|i: int|
            0 <= i < s.len() && #[trigger] s[i].frame_rate == fps,
        pick_highest_res_at(s, fps) matches Some(f) ==> s.contains(f) && f.frame_rate == fps,
    decreases s.len(),
{
    if s.len() > 0 {
        lemma_pick_highest_res_at_basic(s.drop_last(), fps);
        match pick_highest_res_at(s.drop_last(), fps) {
            Some(b) => lemma_contains_drop_last(s, b),
            None => {},
        }
        if exists|i: int| 0 <= i < s.drop_last().len() && #[trigger] s.drop_last()[i].frame_rate == fps {
            let i = choose|i: int|
                0 <= i < s.drop_last().len() && #[trigger] s.drop_last()[i].frame_rate == fps;
            assert(s[i].frame_rate == fps);
        }
        if exists|i: int| 0 <= i < s.len() && #[trigger] s[i].frame_rate == fps {
            let i = choose|i: int| 0 <= i < s.len() && #[trigger] s[i].frame_rate == fps;
            if i < s.len() - 1 {
                assert(s.drop_last()[i].frame_rate == fps);
            }
        }
        assert(s[s.len() - 1] == s.last());
    }
}

proof fn lemma_pick_closest_res_basic(s: Seq<CameraFormat>, c: CameraFormat)
    ensures
        pick_closest_res(s, c) is Some <==> exists|i: int|
            0 <= i < s.len() && (#[trigger] s[i]).format == c.format,
        pick_closest_res(s, c) matches Some(res) ==> {
            &&& exists|i: int|
                0 <= i < s.len() && (#[trigger] s[i]).format == c.format && s[i].resolution == res
            &&& forall|i: int|
                0 <= i < s.len() && (#[trigger] s[i]).format == c.format ==> res_dist(
                    res,
                    c.resolution,
                ) <= res_dist(s[i].resolution, c.resolution)
        },
    decreases s.len(),
{
    if s.len() > 0 {
        lemma_pick_closest_res_basic(s.drop_last(), c);
        let d = s.drop_last();
        assert(forall|i: int| 0 <= i < s.len() - 1 ==> d[i] == #[trigger] s[i]);
        assert(s[s.len() - 1] == s.last());
        if exists|i: int| 0 <= i < d.len() && (#[trigger] d[i]).format == c.format {
            let i = choose|i: int| 0 <= i < d.len() && (#[trigger] d[i]).format == c.format;
            assert(s[i].format == c.format);
        }
        if exists|i: int| 0 <= i < s.len() && (#[trigger] s[i]).format == c.format {
            let i = choose|i: int| 0 <= i < s.len() && (#[trigger] s[i]).format == c.format;
            if i < s.len() - 1 {
                assert(d[i].format == c.format);
            }
        }
        match pick_closest_res(d, c) {
            Some(b) => {
                let i = choose|i: int|
                    0 <= i < d.len() && (#[trigger] d[i]).format == c.format && d[i].resolution
                        == b;
                assert(s[i].format == c.format && s[i].resolution == b);
            },
            None => {},
        }
    }
}

proof fn lemma_pick_closest_fps_basic(s: Seq<CameraFormat>, c: CameraFormat, res: Resolution)
    ensures
        pick_closest_fps(s, c, res) is Some <==> exists|i: int|
            0 <= i < s.len() && (#[trigger] s[i]).format == c.format && s[i].resolution == res,
        pick_closest_fps(s, c, res) matches Some(fr) ==> {
            &&& exists|i: int|
                0 <= i < s.len() && (#[trigger] s[i]).format == c.format && s[i].resolution == res
                    && s[i].frame_rate == fr
            &&& forall|i: int|
                0 <= i < s.len() && (#[trigger] s[i]).format == c.format && s[i].resolution == res
                    ==> abs_diff(fr as int, c.frame_rate as int) <= abs_diff(
                    s[i].frame_rate as int,
                    c.frame_rate as int,
                )
        },
    decreases s.len(),
{
    if s.len() > 0 {
        lemma_pick_closest_fps_basic(s.drop_last(), c, res);
        let d = s.drop_last();
        assert(forall|i: int| 0 <= i < s.len() - 1 ==> d[i] == #[trigger] s[i]);
        assert(s[s.len() - 1] == s.last());
        if exists|i: int|
            0 <= i < d.len() && (#[trigger] d[i]).format == c.format && d[i].resolution == res {
            let i = choose|i: int|
                0 <= i < d.len() && (#[trigger] d[i]).format == c.format && d[i].resolution == res;
            assert(s[i].format == c.format && s[i].resolution == res);
        }
        if exists|i: int|
            0 <= i < s.len() && (#[trigger] s[i]).format == c.format && s[i].resolution == res {
            let i = choose|i: int|
                0 <= i < s.len() && (#[trigger] s[i]).format == c.format && s[i].resolution == res;
            if i < s.len() - 1 {
                assert(d[i].format == c.format && d[i].resolution == res);
            }
        }
        match pick_closest_fps(d, c, res) {
            Some(b) => {
                let i = choose|i: int|
                    0 <= i < d.len() && (#[trigger] d[i]).format == c.format && d[i].resolution
                        == res && d[i].frame_rate == b;
                assert(s[i].format == c.format && s[i].resolution == res && s[i].frame_rate == b);
            },
            None => {},
        }
    }
}

proof fn lemma_pick_closest_basic(s: Seq<CameraFormat>, c: CameraFormat)
    ensures
        pick_closest(s, c) is Some <==> exists|i: int|
            0 <= i < s.len() && (#[trigger] s[i]).format == c.format,
        pick_closest(s, c) matches Some(f) ==> s.contains(f) && f.format == c.format,
{
    lemma_pick_closest_res_basic(s, c);
    match pick_closest_res(s, c) {
        Some(res) => {
            lemma_pick_closest_fps_basic(s, c, res);
            match pick_closest_fps(s, c, res) {
                Some(fr) => {
                    let i = choose|i: int|
                        0 <= i < s.len() && (#[trigger] s[i]).format == c.format && s[i].resolution
                            == res && s[i].frame_rate == fr;
                    assert(s[i] == (CameraFormat {
                        resolution: res,
                        format: c.format,
                        frame_rate: fr,
                    }));
                    assert(s.contains(s[i]));
                },
                None => {},
            }
        },
        None => {},
    }
}

/// Whatever the request, a resolved format is one of the available entries.
pub proof fn lemma_resolve_in_available(req: RequestedFormatType, s: Seq<CameraFormat>)
    ensures
        resolve_spec(req, s) matches Some(f) ==> s.contains(f),
        s.len() == 0 ==> resolve_spec(req, s) is None,
{
    match req {
        RequestedFormatType::AbsoluteHighestResolution => lemma_pick_ahr_basic(s),
        RequestedFormatType::AbsoluteHighestFrameRate => lemma_pick_afr_basic(s),
        RequestedFormatType::HighestResolution(res) => lemma_pick_highest_fps_at_basic(s, res),
        RequestedFormatType::HighestFrameRate(fps) => lemma_pick_highest_res_at_basic(s, fps),
        RequestedFormatType::Closest(c) => lemma_pick_closest_basic(s, c),
        RequestedFormatType::Any => {
            if s.len() > 0 {
                assert(s.contains(s[0]));
            }
        },
    }
}

/// The absolute-highest-resolution policy resolves whenever any format is
/// available, and what it returns beats every entry on resolution, and on
/// frame rate among entries at its resolution.
pub proof fn lemma_resolve_absolute_highest_resolution(s: Seq<CameraFormat>)
    ensures
        resolve_spec(RequestedFormatType::AbsoluteHighestResolution, s) is Some <==> s.len() > 0,
        resolve_spec(RequestedFormatType::AbsoluteHighestResolution, s) matches Some(f) ==> {
            &&& s.contains(f)
            &&& forall|i: int| 0 <= i < s.len() ==> prefers_ahr(#[trigger] s[i], f)
        },
    decreases s.len(),
{
    lemma_pick_ahr_basic(s);
    if s.len() > 0 {
        lemma_resolve_absolute_highest_resolution(s.drop_last());
        assert(forall|i: int| 0 <= i < s.len() - 1 ==> s.drop_last()[i] == #[trigger] s[i]);
        assert(s[s.len() - 1] == s.last());
    }
}

/// The absolute-highest-frame-rate policy resolves whenever any format is
/// available, and what it returns beats every entry on frame rate, and on
/// resolution among entries at its frame rate.
pub proof fn lemma_resolve_absolute_highest_frame_rate(s: Seq<CameraFormat>)
    ensures
        resolve_spec(RequestedFormatType::AbsoluteHighestFrameRate, s) is Some <==> s.len() > 0,
        resolve_spec(RequestedFormatType::AbsoluteHighestFrameRate, s) matches Some(f) ==> {
            &&& s.contains(f)
            &&& forall|i: int| 0 <= i < s.len() ==> prefers_afr(#[trigger] s[i], f)
        },
    decreases s.len(),
{
    lemma_pick_afr_basic(s);
    if s.len() > 0 {
        lemma_resolve_absolute_highest_frame_rate(s.drop_last());
        assert(forall|i: int| 0 <= i < s.len() - 1 ==> s.drop_last()[i] == #[trigger] s[i]);
        assert(s[s.len() - 1] == s.last());
    }
}

/// `HighestResolution` is exact-match-only: it resolves exactly when some
/// entry has the requested resolution, the result has that resolution, and
/// no entry at that resolution has a higher frame rate.
pub proof fn lemma_resolve_highest_resolution(s: Seq<CameraFormat>, res: Resolution)
    ensures
        resolve_spec(RequestedFormatType::HighestResolution(res), s) is Some <==> exists|i: int|
            0 <= i < s.len() && #[trigger] s[i].resolution == res,
        resolve_spec(RequestedFormatType::HighestResolution(res), s) matches Some(f) ==> {
            &&& s.contains(f)
            &&& f.resolution == res
            &&& forall|i: int|
                0 <= i < s.len() && #[trigger] s[i].resolution == res ==> s[i].frame_rate
                    <= f.frame_rate
        },
    decreases s.len(),
{
    lemma_pick_highest_fps_at_basic(s, res);
    if s.len() > 0 {
        lemma_resolve_highest_resolution(s.drop_last(), res);
        assert(forall|i: int| 0 <= i < s.len() - 1 ==> s.drop_last()[i] == #[trigger] s[i]);
        assert(s[s.len() - 1] == s.last());
    }
}

/// `HighestFrameRate` is exact-match-only: it resolves exactly when some
/// entry has the requested frame rate, the result has that rate, and no
/// entry at that rate has a higher resolution.
pub proof fn lemma_resolve_highest_frame_rate(s: Seq<CameraFormat>, fps: u32)
    ensures
        resolve_spec(RequestedFormatType::HighestFrameRate(fps), s) is Some <==> exists|i: int|
            0 <= i < s.len() && #[trigger] s[i].frame_rate == fps,
        resolve_spec(RequestedFormatType::HighestFrameRate(fps), s) matches Some(f) ==> {
            &&& s.contains(f)
            &&& f.frame_rate == fps
            &&& forall|i: int|
                0 <= i < s.len() && #[trigger] s[i].frame_rate == fps ==> s[i].resolution.spec_le(
                    f.resolution,
                )
        },
    decreases s.len(),
{
    lemma_pick_highest_res_at_basic(s, fps);
    if s.len() > 0 {
        lemma_resolve_highest_frame_rate(s.drop_last(), fps);
        assert(forall|i: int| 0 <= i < s.len() - 1 ==> s.drop_last()[i] == #[trigger] s[i]);
        assert(s[s.len() - 1] == s.last());
    }
}

/// `Closest` never crosses encodings: it resolves exactly when some entry
/// shares the target's encoding. The result carries the target's encoding, a
/// resolution at minimum squared Euclidean distance among same-encoding
/// entries, and, among same-encoding entries at that resolution, a frame
/// rate at minimum distance from the target's; it is always one of the
/// listed entries.
pub proof fn lemma_resolve_closest(s: Seq<CameraFormat>, c: CameraFormat)
    ensures
        resolve_spec(RequestedFormatType::Closest(c), s) is Some <==> exists|i: int|
            0 <= i < s.len() && (#[trigger] s[i]).format == c.format,
        resolve_spec(RequestedFormatType::Closest(c), s) matches Some(f) ==> {
            &&& s.contains(f)
            &&& f.format == c.format
            &&& forall|i: int|
                0 <= i < s.len() && (#[trigger] s[i]).format == c.format ==> res_dist(
                    f.resolution,
                    c.resolution,
                ) <= res_dist(s[i].resolution, c.resolution)
            &&& forall|i: int|
                0 <= i < s.len() && (#[trigger] s[i]).format == c.format && s[i].resolution
                    == f.resolution ==> abs_diff(f.frame_rate as int, c.frame_rate as int)
                    <= abs_diff(s[i].frame_rate as int, c.frame_rate as int)
        },
{
    lemma_pick_closest_basic(s, c);
    lemma_pick_closest_res_basic(s, c);
    match pick_closest_res(s, c) {
        Some(res) => {
            lemma_pick_closest_fps_basic(s, c, res);
        },
        None => {},
    }
}

} // verus!
