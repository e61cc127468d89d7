//! Changing one part of a rectangle.

use vstd::prelude::*;
use crate::geometry::Rect;

verus! {

pub fn rect_mesh_set_rect(rect: &mut Rect, new_rect: Rect)
    ensures
        *final(rect) == new_rect,
{
    *rect = new_rect;
}

pub fn rect_mesh_set_x(rect: &mut Rect, x: i64)
    ensures
        *final(rect) == (Rect { x, ..*old(rect) }),
{
    let new_rect = Rect { x, y: rect.y, w: rect.w, h: rect.h };
    rect_mesh_set_rect(rect, new_rect);
}

pub fn rect_mesh_set_y(rect: &mut Rect, y: i64)
    ensures
        *final(rect) == (Rect { y, ..*old(rect) }),
{
    let new_rect = Rect { x: rect.x, y, w: rect.w, h: rect.h };
    rect_mesh_set_rect(rect, new_rect);
}

pub fn rect_mesh_set_w(rect: &mut Rect, w: i64)
    ensures
        *final(rect) == (Rect { w, ..*old(rect) }),
{
    let new_rect = Rect { x: rect.x, y: rect.y, w, h: rect.h };
    rect_mesh_set_rect(rect, new_rect);
}

pub fn rect_mesh_set_h(rect: &mut Rect, h: i64)
    ensures
        *final(rect) == (Rect { h, ..*old(rect) }),
{
    let new_rect = Rect { x: rect.x, y: rect.y, w: rect.w, h };
    rect_mesh_set_rect(rect, new_rect);
}

} // verus!
