use vstd::prelude::*;

verus! {

/// A clip rectangle in physical pixels, each corner coordinate rounded to the
/// nearest integer.
#[derive(Clone, Copy, Debug, PartialEq, Eq, Structural)]
pub struct ClipRect {
    pub min_x: i64,
    pub min_y: i64,
    pub max_x: i64,
    pub max_y: i64,
}

/// `v` brought into `lo..=hi`.
pub open spec fn clamp(v: int, lo: int, hi: int) -> int {
    if v < lo {
        lo
    } else if v > hi {
        hi
    } else {
        v
    }
}

/// Start and length, along one axis, of the part of `lo..hi` that lies in
/// `0..extent`. An empty part still gets one pixel, except at the far edge
/// where no pixel is left.
pub open spec fn scissor_span(lo: int, hi: int, extent: int) -> (int, int) {
    let start = clamp(lo, 0, extent);
    let end = clamp(hi, start, extent);
    (start, if start == extent {
        0
    } else if end > start {
        end - start
    } else {
        1
    })
}

/// The scissor rectangle `(x, y, width, height)` for `clip` on a target of
/// `width` by `height` pixels; `None` for a target with no pixels.
pub open spec fn scissor_of(clip: ClipRect, width: u32, height: u32) -> Option<(u32, u32, u32, u32)> {
    if width == 0 || height == 0 {
        None
    } else {
        let (x, w) = scissor_span(clip.min_x as int, clip.max_x as int, width as int);
        let (y, h) = scissor_span(clip.min_y as int, clip.max_y as int, height as int);
        Some((x as u32, y as u32, w as u32, h as u32))
    }
}

/// Start and length of one axis of the scissor rectangle.
fn clip_axis(lo: i64, hi: i64, extent: u32) -> (r: (u32, u32))
    ensures
        r.0 as int == scissor_span(lo as int, hi as int, extent as int).0,
        r.1 as int == scissor_span(lo as int, hi as int, extent as int).1,
{
    let ext = extent as i64;
    let start: i64 = if lo < 0 {
        0
    } else if lo > ext {
        ext
    } else {
        lo
    };
    let end: i64 = if hi < start {
        start
    } else if hi > ext {
        ext
    } else {
        hi
    };
    let start = start as u32;
    let end = end as u32;
    let mut len: u32 = end - start;
    if len < 1 {
        len = 1;
    }
    let room = extent - start;
    if len > room {
        len = room;
    }
    (start, len)
}

/// Clips `clip_rect` to a target of `width` by `height` pixels, giving the
/// scissor rectangle `(x, y, width, height)` to draw with, or `None` when the
/// target has no pixels.
pub fn render_region(clip_rect: &ClipRect, width: u32, height: u32) -> (r: Option<(u32, u32, u32, u32)>)
    ensures
        r == scissor_of(*clip_rect, width, height),
{
    let (x, clip_width) = clip_axis(clip_rect.min_x, clip_rect.max_x, width);
    let (y, clip_height) = clip_axis(clip_rect.min_y, clip_rect.max_y, height);
    if width == 0 || height == 0 {
        return None;
    }
    Some((x, y, clip_width, clip_height))
}

} // verus!
