//! Pixel-stream conversions: YUYV 4:2:2 to RGB888/RGBA8888, verified in
//! full. MJPEG decompression is reported as unavailable here: the decoder
//! signals fatal errors by unwinding, which may not cross the verified
//! boundary, so the surrounding application performs it.

use vstd::prelude::*;
use crate::error::NokhwaError;
use crate::format::FrameFormat;
use crate::types::str_to_string;

verus! {

/// Scale a fixed-point YCbCr term down by 256 and clamp it to a byte, as the
/// integer conversion formula calls for.
///
/// Opaque so that proofs about whole converted streams treat each byte as a
/// symbolic value instead of reasoning about the division in every element.
#[verifier::opaque]
pub open spec fn scale_clamp_byte(t: int) -> u8 {
    if t <= 0 {
        0
    } else if t / 256 >= 256 {
        255
    } else {
        (t / 256) as u8
    }
}

/// The red byte of a YCbCr 4:4:4 triple converted to RGB888.
pub open spec fn yuv_r(y: int, u: int, v: int) -> u8 {
    scale_clamp_byte((y - 16) * 298 + 409 * (v - 128) + 128)
}

/// The green byte of a YCbCr 4:4:4 triple converted to RGB888.
pub open spec fn yuv_g(y: int, u: int, v: int) -> u8 {
    scale_clamp_byte((y - 16) * 298 - 100 * (u - 128) - 208 * (v - 128) + 128)
}

/// The blue byte of a YCbCr 4:4:4 triple converted to RGB888.
pub open spec fn yuv_b(y: int, u: int, v: int) -> u8 {
    scale_clamp_byte((y - 16) * 298 + 516 * (u - 128) + 128)
}

fn scale_clamp_byte_exec(t: i32) -> (r: u8)
    ensures
        r == scale_clamp_byte(t as int),
{
    proof {
        reveal(scale_clamp_byte);
    }
    if t <= 0 {
        0
    } else {
        let q = t / 256;
        if q >= 256 {
            255
        } else {
            q as u8
        }
    }
}

/// Convert one YCbCr 4:4:4 triple to RGB888.
///
/// The components are byte-valued, as a YUYV stream delivers them.
pub fn yuyv444_to_rgb(y: i32, u: i32, v: i32) -> (r: [u8; 3])
    requires
        0 <= y <= 255,
        0 <= u <= 255,
        0 <= v <= 255,
    ensures
        r@ == seq![yuv_r(y as int, u as int, v as int), yuv_g(y as int, u as int, v as int), yuv_b(
            y as int,
            u as int,
            v as int,
        )],
{
    let c298 = (y - 16) * 298;
    let d = u - 128;
    let e = v - 128;
    let red = scale_clamp_byte_exec(c298 + 409 * e + 128);
    let green = scale_clamp_byte_exec(c298 - 100 * d - 208 * e + 128);
    let blue = scale_clamp_byte_exec(c298 + 516 * d + 128);
    let out = [red, green, blue];
    proof {
        assert(out@ =~= seq![yuv_r(y as int, u as int, v as int), yuv_g(
            y as int,
            u as int,
            v as int,
        ), yuv_b(y as int, u as int, v as int)]);
    }
    out
}

/// Convert one YCbCr 4:4:4 triple to RGBA8888, with an opaque alpha byte.
pub fn yuyv444_to_rgba(y: i32, u: i32, v: i32) -> (r: [u8; 4])
    requires
        0 <= y <= 255,
        0 <= u <= 255,
        0 <= v <= 255,
    ensures
        r@ == seq![yuv_r(y as int, u as int, v as int), yuv_g(y as int, u as int, v as int), yuv_b(
            y as int,
            u as int,
            v as int,
        ), 255u8],
{
    let px = yuyv444_to_rgb(y, u, v);
    let out = [px[0], px[1], px[2], 255];
    proof {
        assert(out@ =~= seq![yuv_r(y as int, u as int, v as int), yuv_g(
            y as int,
            u as int,
            v as int,
        ), yuv_b(y as int, u as int, v as int), 255u8]);
    }
    out
}

/// The six RGB888 bytes one four-byte YUYV chunk decodes to.
pub open spec fn yuyv_chunk_rgb(y1: int, u: int, y2: int, v: int) -> Seq<u8> {
    seq![yuv_r(y1, u, v), yuv_g(y1, u, v), yuv_b(y1, u, v), yuv_r(y2, u, v), yuv_g(y2, u, v), yuv_b(
        y2,
        u,
        v,
    )]
}

/// The eight RGBA8888 bytes one four-byte YUYV chunk decodes to.
pub open spec fn yuyv_chunk_rgba(y1: int, u: int, y2: int, v: int) -> Seq<u8> {
    seq![yuv_r(y1, u, v), yuv_g(y1, u, v), yuv_b(y1, u, v), 255u8, yuv_r(y2, u, v), yuv_g(
        y2,
        u,
        v,
    ), yuv_b(y2, u, v), 255u8]
}

/// What a whole YUYV 4:2:2 stream decodes to, chunk by chunk.
pub open spec fn yuyv_to_rgb_spec(d: Seq<u8>, rgba: bool) -> Seq<u8>
    decreases d.len(),
{
    if d.len() < 4 {
        Seq::empty()
    } else {
        (if rgba {
            yuyv_chunk_rgba(d[0] as int, d[1] as int, d[2] as int, d[3] as int)
        } else {
            yuyv_chunk_rgb(d[0] as int, d[1] as int, d[2] as int, d[3] as int)
        }) + yuyv_to_rgb_spec(d.skip(4), rgba)
    }
}

proof fn lemma_yuyv_spec_append(d1: Seq<u8>, d2: Seq<u8>, rgba: bool)
    requires
        d1.len() % 4 == 0,
    ensures
        yuyv_to_rgb_spec(d1 + d2, rgba) == yuyv_to_rgb_spec(d1, rgba) + yuyv_to_rgb_spec(d2, rgba),
    decreases d1.len(),
{
    if d1.len() == 0 {
        assert(d1 + d2 =~= d2);
        assert(yuyv_to_rgb_spec(d1, rgba) + yuyv_to_rgb_spec(d2, rgba) =~= yuyv_to_rgb_spec(
            d2,
            rgba,
        ));
    } else {
        let whole = d1 + d2;
        assert(whole.len() >= 4);
        assert(whole[0] == d1[0] && whole[1] == d1[1] && whole[2] == d1[2] && whole[3] == d1[3]);
        assert(whole.skip(4) =~= d1.skip(4) + d2);
        lemma_yuyv_spec_append(d1.skip(4), d2, rgba);
        assert(yuyv_to_rgb_spec(whole, rgba) =~= yuyv_to_rgb_spec(d1, rgba) + yuyv_to_rgb_spec(
            d2,
            rgba,
        ));
    }
}

/// Convert a YUYV 4:2:2 stream into a caller-provided RGB888 (or RGBA8888)
/// buffer.
///
/// Fails, leaving the buffer untouched, when the stream length is not a
/// multiple of four or the buffer does not have exactly the output's length:
/// six bytes per chunk for RGB, eight for RGBA.
#[verifier::rlimit(100)]
pub fn buf_yuyv422_to_rgb(data: &[u8], dest: &mut Vec<u8>, rgba: bool) -> (r: Result<
    (),
    NokhwaError,
>)
    ensures
        r is Ok <==> (data@.len() % 4 == 0 && old(dest)@.len() == (data@.len() / 4) * (
        if rgba {
            8int
        } else {
            6int
        })),
        r is Ok ==> final(dest)@ == yuyv_to_rgb_spec(data@, rgba),
        r is Err ==> final(dest)@ == old(dest)@,
        r matches Err(e) ==> e matches NokhwaError::ProcessFrameError { src, .. } && src
            == FrameFormat::YUYV,
{
    if data.len() % 4 != 0 {
        return Err(
            NokhwaError::ProcessFrameError {
                src: FrameFormat::YUYV,
                error: str_to_string("stream length is not a multiple of four, so it is not 4:2:2"),
            },
        );
    }
    let chunks = data.len() / 4;
    let per: usize = if rgba { 8 } else { 6 };
    if dest.len() % per != 0 || dest.len() / per != chunks {
        return Err(
            NokhwaError::ProcessFrameError {
                src: FrameFormat::YUYV,
                error: str_to_string("destination buffer does not match the output size"),
            },
        );
    }
    proof {
        assert(dest@.len() == chunks * per) by (nonlinear_arith)
            requires
                dest@.len() as int % (per as int) == 0,
                dest@.len() as int / (per as int) == chunks as int,
                per == 6 || per == 8,
        ;
        assert(4 * chunks == data@.len());
    }
    if rgba {
        let mut j: usize = 0;
        while j < chunks
            invariant
                0 <= j <= chunks,
                chunks == data@.len() / 4,
                data@.len() % 4 == 0,
                4 * chunks == data@.len(),
                data@.len() <= usize::MAX,
                dest@.len() == chunks * 8,
                dest@.len() <= usize::MAX,
                dest@.take(8 * j as int) == yuyv_to_rgb_spec(data@.take(4 * j as int), true),
            decreases chunks - j,
        {
            let y1 = data[4 * j] as i32;
            let u = data[4 * j + 1] as i32;
            let y2 = data[4 * j + 2] as i32;
            let v = data[4 * j + 3] as i32;
            let p1 = yuyv444_to_rgba(y1, u, v);
            let p2 = yuyv444_to_rgba(y2, u, v);
            let base = 8 * j;
            dest.set(base, p1[0]);
            dest.set(base + 1, p1[1]);
            dest.set(base + 2, p1[2]);
            dest.set(base + 3, p1[3]);
            dest.set(base + 4, p2[0]);
            dest.set(base + 5, p2[1]);
            dest.set(base + 6, p2[2]);
            dest.set(base + 7, p2[3]);
            proof {
                let pre = data@.take(4 * j as int);
                let chunk = data@.subrange(4 * j as int, 4 * j + 4 as int);
                assert(data@.take(4 * (j + 1) as int) =~= pre + chunk);
                lemma_yuyv_spec_append(pre, chunk, true);
                assert(chunk.len() == 4);
                assert(chunk[0] == data@[4 * j] && chunk[1] == data@[4 * j + 1] && chunk[2]
                    == data@[4 * j + 2] && chunk[3] == data@[4 * j + 3]);
                assert(chunk.skip(4) =~= Seq::<u8>::empty());
                assert(yuyv_to_rgb_spec(chunk.skip(4), true) =~= Seq::<u8>::empty());
                assert(yuyv_to_rgb_spec(chunk, true) =~= yuyv_chunk_rgba(
                    y1 as int,
                    u as int,
                    y2 as int,
                    v as int,
                ));
                assert(dest@.take(8 * (j + 1) as int) =~= yuyv_to_rgb_spec(pre, true)
                    + yuyv_chunk_rgba(y1 as int, u as int, y2 as int, v as int));
            }
            j = j + 1;
        }
        proof {
            assert(data@.take(4 * chunks as int) =~= data@);
            assert(dest@.take(8 * chunks as int) =~= dest@);
        }
    } else {
        let mut j: usize = 0;
        while j < chunks
            invariant
                0 <= j <= chunks,
                chunks == data@.len() / 4,
                data@.len() % 4 == 0,
                4 * chunks == data@.len(),
                data@.len() <= usize::MAX,
                dest@.len() == chunks * 6,
                dest@.len() <= usize::MAX,
                dest@.take(6 * j as int) == yuyv_to_rgb_spec(data@.take(4 * j as int), false),
            decreases chunks - j,
        {
            let y1 = data[4 * j] as i32;
            let u = data[4 * j + 1] as i32;
            let y2 = data[4 * j + 2] as i32;
            let v = data[4 * j + 3] as i32;
            let p1 = yuyv444_to_rgb(y1, u, v);
            let p2 = yuyv444_to_rgb(y2, u, v);
            let base = 6 * j;
            dest.set(base, p1[0]);
            dest.set(base + 1, p1[1]);
            dest.set(base + 2, p1[2]);
            dest.set(base + 3, p2[0]);
            dest.set(base + 4, p2[1]);
            dest.set(base + 5, p2[2]);
            proof {
                let pre = data@.take(4 * j as int);
                let chunk = data@.subrange(4 * j as int, 4 * j + 4 as int);
                assert(data@.take(4 * (j + 1) as int) =~= pre + chunk);
                lemma_yuyv_spec_append(pre, chunk, false);
                assert(chunk.len() == 4);
                assert(chunk[0] == data@[4 * j] && chunk[1] == data@[4 * j + 1] && chunk[2]
                    == data@[4 * j + 2] && chunk[3] == data@[4 * j + 3]);
                assert(chunk.skip(4) =~= Seq::<u8>::empty());
                assert(yuyv_to_rgb_spec(chunk.skip(4), false) =~= Seq::<u8>::empty());
                assert(yuyv_to_rgb_spec(chunk, false) =~= yuyv_chunk_rgb(
                    y1 as int,
                    u as int,
                    y2 as int,
                    v as int,
                ));
                assert(dest@.take(6 * (j + 1) as int) =~= yuyv_to_rgb_spec(pre, false)
                    + yuyv_chunk_rgb(y1 as int, u as int, y2 as int, v as int));
            }
            j = j + 1;
        }
        proof {
            assert(data@.take(4 * chunks as int) =~= data@);
            assert(dest@.take(6 * chunks as int) =~= dest@);
        }
    }
    Ok(())
}

/// Convert a YUYV 4:2:2 stream to a freshly allocated RGB888 (or RGBA8888)
/// buffer.
///
/// Fails exactly when the stream length is not a multiple of four.
pub fn yuyv422_to_rgb(data: &[u8], rgba: bool) -> (r: Result<Vec<u8>, NokhwaError>)
    ensures
        r is Ok <==> data@.len() % 4 == 0,
        r matches Ok(v) ==> v@ == yuyv_to_rgb_spec(data@, rgba),
        r matches Err(e) ==> e matches NokhwaError::ProcessFrameError { src, .. } && src
            == FrameFormat::YUYV,
{
    if data.len() % 4 != 0 {
        return Err(
            NokhwaError::ProcessFrameError {
                src: FrameFormat::YUYV,
                error: str_to_string("stream length is not a multiple of four, so it is not 4:2:2"),
            },
        );
    }
    let chunks = data.len() / 4;
    let per: usize = if rgba { 8 } else { 6 };
    let mut dest: Vec<u8> = Vec::new();
    let mut j: usize = 0;
    while j < chunks
        invariant
            0 <= j <= chunks,
            per == (if rgba { 8int } else { 6int }),
            dest@.len() == j * per,
            forall|k: int| 0 <= k < dest@.len() ==> dest@[k] == 0u8,
        decreases chunks - j,
    {
        let mut c: usize = 0;
        while c < per
            invariant
                0 <= c <= per,
                per == (if rgba { 8int } else { 6int }),
                dest@.len() == j * per + c,
                forall|k: int| 0 <= k < dest@.len() ==> dest@[k] == 0u8,
            decreases per - c,
        {
            dest.push(0);
            c = c + 1;
        }
        proof {
            assert((j + 1) * per == j * per + per) by (nonlinear_arith);
        }
        j = j + 1;
    }
    proof {
        assert(dest@.len() == chunks * per) by (nonlinear_arith)
            requires
                dest@.len() == chunks * per,
        ;
    }
    match buf_yuyv422_to_rgb(data, &mut dest, rgba) {
        Ok(()) => Ok(dest),
        Err(e) => Err(e),
    }
}

/// The message every MJPEG conversion in this crate reports.
pub open spec fn mjpeg_unavailable_msg() -> Seq<char> {
    "MJPEG decompression is not available in the verified core"@
}

/// Decompressing an MJPEG frame is not performed inside the verified core:
/// the decoder reports every fatal decode error by unwinding, and unwinding
/// may not cross the verified boundary, so the surrounding application runs
/// the decompression (through mozjpeg, inside the panic containment the
/// decoder requires). Here the conversion is reported as unavailable, for
/// every input.
pub fn mjpeg_to_rgb(data: &[u8], rgba: bool) -> (r: Result<Vec<u8>, NokhwaError>)
    ensures
        r matches Err(e) && e matches NokhwaError::ProcessFrameError { src, error } && src
            == FrameFormat::MJPEG && error@ == mjpeg_unavailable_msg(),
{
    let _ = data.len();
    let _ = rgba;
    Err(
        NokhwaError::ProcessFrameError {
            src: FrameFormat::MJPEG,
            error: str_to_string("MJPEG decompression is not available in the verified core"),
        },
    )
}

/// The buffer-filling form of `mjpeg_to_rgb`: likewise unavailable in the
/// verified core, for every input, and the buffer is never touched.
pub fn buf_mjpeg_to_rgb(data: &[u8], dest: &mut Vec<u8>, rgba: bool) -> (r: Result<
    (),
    NokhwaError,
>)
    ensures
        final(dest)@ == old(dest)@,
        r matches Err(e) && e matches NokhwaError::ProcessFrameError { src, error } && src
            == FrameFormat::MJPEG && error@ == mjpeg_unavailable_msg(),
{
    let _ = data.len();
    let _ = rgba;
    Err(
        NokhwaError::ProcessFrameError {
            src: FrameFormat::MJPEG,
            error: str_to_string("MJPEG decompression is not available in the verified core"),
        },
    )
}

} // verus!
