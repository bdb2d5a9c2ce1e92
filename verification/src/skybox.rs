//! The skybox atlas layout: a skybox image is a 4-wide, 3-tall cross of
//! equally sized cube faces, and each face is copied out of the atlas into
//! one layer of a cubemap. This module computes where each face sits; the
//! copies themselves are graphics-device work done by the caller.

use vstd::arithmetic::div_mod::lemma_div_is_ordered;
use vstd::prelude::*;

verus! {

/// One face's rectangle inside the atlas image, in pixels from the
/// bottom-left corner.
#[derive(Clone, Copy, PartialEq, Eq, Structural, Debug)]
pub struct FaceRect {
    pub left: u32,
    pub bottom: u32,
    pub width: u32,
    pub height: u32,
}

/// The six face rectangles of a skybox atlas, named by the direction each
/// face is seen in.
#[derive(Clone, Copy, PartialEq, Eq, Structural, Debug)]
pub struct SkyboxLayout {
    pub left: FaceRect,
    pub front: FaceRect,
    pub right: FaceRect,
    pub back: FaceRect,
    pub bottom: FaceRect,
    pub top: FaceRect,
}

/// A face rectangle sits at atlas cell (`col`, `row`) and spans one cell:
/// a quarter of the width by a third of the height.
pub open spec fn face_at(f: FaceRect, w: int, h: int, col: int, row: int) -> bool {
    &&& f.left == (w / 4) * col
    &&& f.bottom == (h / 3) * row
    &&& f.width == w / 4
    &&& f.height == h / 3
}

/// Computes the six face rectangles of a `width` by `height` atlas: the
/// middle row holds left, front, right and back in that order, and the
/// front column holds bottom and top.
pub fn skybox_atlas_layout(width: u32, height: u32) -> (r: SkyboxLayout)
    ensures
        face_at(r.left, width as int, height as int, 0, 1),
        face_at(r.front, width as int, height as int, 1, 1),
        face_at(r.right, width as int, height as int, 2, 1),
        face_at(r.back, width as int, height as int, 3, 1),
        face_at(r.bottom, width as int, height as int, 1, 0),
        face_at(r.top, width as int, height as int, 1, 2),
{
    let ws: u32 = width / 4;
    let hs: u32 = height / 3;
    proof {
        lemma_div_is_ordered(width as int, u32::MAX as int, 4);
        lemma_div_is_ordered(height as int, u32::MAX as int, 3);
    }
    SkyboxLayout {
        left: FaceRect { left: 0, bottom: hs, width: ws, height: hs },
        front: FaceRect { left: ws, bottom: hs, width: ws, height: hs },
        right: FaceRect { left: ws * 2, bottom: hs, width: ws, height: hs },
        back: FaceRect { left: ws * 3, bottom: hs, width: ws, height: hs },
        bottom: FaceRect { left: ws, bottom: 0, width: ws, height: hs },
        top: FaceRect { left: ws, bottom: hs * 2, width: ws, height: hs },
    }
}

} // verus!
