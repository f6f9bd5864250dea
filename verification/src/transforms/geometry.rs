//! The integer geometry of crops and rotations.
use vstd::prelude::*;
use crate::models::Gravity;

verus! {

/// Whether both target dimensions are positive.
pub fn is_valid_size(w: u32, h: u32) -> (res: bool)
    ensures
        res == (w > 0 && h > 0),
{
    w > 0 && h > 0
}

/// Where a crop of `crop_size` starts along an edge of `img_size`: at the
/// start for west (horizontally) or north (vertically), at the end for east
/// or south, else centred (rounding down); at zero when the crop is not smaller.
pub open spec fn gravity_offset_spec(img_size: u32, crop_size: u32, gravity: Gravity, is_horizontal: bool) -> u32 {
    if crop_size >= img_size {
        0
    } else if (gravity == Gravity::West && is_horizontal) || (gravity == Gravity::North
        && !is_horizontal) {
        0
    } else if (gravity == Gravity::East && is_horizontal) || (gravity == Gravity::South
        && !is_horizontal) {
        (img_size - crop_size) as u32
    } else {
        ((img_size - crop_size) / 2) as u32
    }
}

/// The offset of a crop along one edge, by gravity.
pub fn calculate_gravity_offset(img_size: u32, crop_size: u32, gravity: Gravity, is_horizontal: bool) -> (offset: u32)
    ensures
        offset == gravity_offset_spec(img_size, crop_size, gravity, is_horizontal),
        offset + crop_size <= img_size || crop_size >= img_size,
{
    if crop_size >= img_size {
        return 0;
    }
    match (gravity, is_horizontal) {
        (Gravity::West, true) | (Gravity::North, false) => 0,
        (Gravity::East, true) | (Gravity::South, false) => img_size - crop_size,
        _ => (img_size - crop_size) / 2,
    }
}

/// A rectangle of an image: its corner and size.
#[derive(Clone, Copy, PartialEq, Eq, Structural)]
pub struct CropRect {
    pub x: u32,
    pub y: u32,
    pub width: u32,
    pub height: u32,
}

/// The crop of an image of `img_w` by `img_h` to `target_w` by `target_h`,
/// placed by gravity: none when a target dimension is zero or the image is
/// no larger than the target either way; else the target clipped to the
/// image, at the gravity's offsets.
pub open spec fn crop_rect_spec(img_w: u32, img_h: u32, target_w: u32, target_h: u32, gravity: Gravity) -> Option<CropRect> {
    if !(target_w > 0 && target_h > 0) || (target_w >= img_w && target_h >= img_h) {
        None
    } else {
        let cw = if target_w < img_w {
            target_w
        } else {
            img_w
        };
        let ch = if target_h < img_h {
            target_h
        } else {
            img_h
        };
        Some(
            CropRect {
                x: gravity_offset_spec(img_w, cw, gravity, true),
                y: gravity_offset_spec(img_h, ch, gravity, false),
                width: cw,
                height: ch,
            },
        )
    }
}

/// The rectangle that cropping to target dimensions keeps, or `None` when
/// the image is kept whole.
pub fn crop_rect(img_w: u32, img_h: u32, target_w: u32, target_h: u32, gravity: Gravity) -> (rect: Option<CropRect>)
    ensures
        rect == crop_rect_spec(img_w, img_h, target_w, target_h, gravity),
{
    if !is_valid_size(target_w, target_h) {
        return None;
    }
    if target_w >= img_w && target_h >= img_h {
        return None;
    }
    let cw = if target_w < img_w {
        target_w
    } else {
        img_w
    };
    let ch = if target_h < img_h {
        target_h
    } else {
        img_h
    };
    let x = calculate_gravity_offset(img_w, cw, gravity, true);
    let y = calculate_gravity_offset(img_h, ch, gravity, false);
    Some(CropRect { x, y, width: cw, height: ch })
}

/// A crop stays inside the image: for every input, the rectangle that
/// `crop_rect` keeps lies within the image, is no larger than the target,
/// and is nonempty when the image is.
pub proof fn lemma_crop_rect_inside(img_w: u32, img_h: u32, target_w: u32, target_h: u32, gravity: Gravity)
    ensures
        match crop_rect_spec(img_w, img_h, target_w, target_h, gravity) {
            Some(r) => r.x + r.width <= img_w && r.y + r.height <= img_h && r.width <= target_w
                && r.height <= target_h && (img_w > 0 ==> r.width > 0) && (img_h > 0 ==> r.height
                > 0),
            None => true,
        },
{
}

/// A rotation by a multiple of a right angle.
#[derive(Clone, Copy, PartialEq, Eq, Structural)]
pub enum Rotation {
    Upright,
    Quarter,
    Half,
    ThreeQuarters,
}

/// The rotation of an angle in degrees, taken modulo 360 (Euclidean): right
/// angles rotate, every other angle leaves the image as it is.
pub open spec fn rotation_spec(angle: i32) -> Rotation {
    let a = angle % 360;
    if a == 90 {
        Rotation::Quarter
    } else if a == 180 {
        Rotation::Half
    } else if a == 270 {
        Rotation::ThreeQuarters
    } else {
        Rotation::Upright
    }
}

/// The rotation an angle asks for.
pub fn rotation_of(angle: i32) -> (r: Rotation)
    ensures
        r == rotation_spec(angle),
{
    let m: i32 = angle % 360;
    let a: i32 = if m < 0 {
        m + 360
    } else {
        m
    };
    if a == 90 {
        Rotation::Quarter
    } else if a == 180 {
        Rotation::Half
    } else if a == 270 {
        Rotation::ThreeQuarters
    } else {
        Rotation::Upright
    }
}

} // verus!
