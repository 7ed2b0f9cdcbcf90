//! How the background and sprite layers combine at a dot: which sprite
//! decides, and when it covers the background.
use vstd::prelude::*;
use crate::ppu::SpriteOutputUnit;
use crate::render::{first_opaque, mux_pixel, sp_pixel, unit_color_sel, unit_opaque};

verus! {

/// The search for an opaque unit from `i` on finds `j`, when `j` is opaque
/// and no unit from `i` up to `j` is.
proof fn lemma_first_opaque_is(units: Seq<SpriteOutputUnit>, i: int, j: int)
    requires
        0 <= i <= j < units.len(),
        unit_opaque(units[j]),
        forall|k: int| i <= k < j ==> !unit_opaque(#[trigger] units[k]),
    ensures
        first_opaque(units, i) == Some(j),
    decreases j - i,
{
    if i < j {
        lemma_first_opaque_is(units, i + 1, j);
    }
}

/// The search for an opaque unit from `i` on finds none when no unit from
/// `i` on is opaque.
proof fn lemma_first_opaque_none(units: Seq<SpriteOutputUnit>, i: int)
    requires
        0 <= i,
        forall|k: int| i <= k < units.len() ==> !unit_opaque(#[trigger] units[k]),
    ensures
        first_opaque(units, i) is None,
    decreases units.len() - i,
{
    if i < units.len() {
        lemma_first_opaque_none(units, i + 1);
    }
}

/// Layer priority at a dot: a transparent pixel (colour 0) never covers the
/// other layer. Where the background and the sprite are both opaque, the
/// sprite is drawn exactly when it is in front of the background and the
/// background when the sprite is behind it; where both are transparent the
/// backdrop (colour 0 of palette 0) shows.
pub proof fn lemma_layer_priority(bg_c: usize, bg_p: usize, sp_c: usize, sp_p: usize, in_front: bool)
    ensures
        bg_c != 0 && sp_c != 0 && in_front ==> mux_pixel(bg_c, bg_p, sp_c, sp_p, in_front) == (sp_c, sp_p),
        bg_c != 0 && sp_c != 0 && !in_front ==> mux_pixel(bg_c, bg_p, sp_c, sp_p, in_front) == (bg_c, bg_p),
        bg_c == 0 && sp_c != 0 ==> mux_pixel(bg_c, bg_p, sp_c, sp_p, in_front) == (sp_c, sp_p),
        sp_c == 0 && bg_c != 0 ==> mux_pixel(bg_c, bg_p, sp_c, sp_p, in_front) == (bg_c, bg_p),
        (mux_pixel(bg_c, bg_p, sp_c, sp_p, in_front).0 == 0) == (bg_c == 0 && sp_c == 0),
        bg_c == 0 && sp_c == 0 ==> mux_pixel(bg_c, bg_p, sp_c, sp_p, in_front) == (0usize, 0usize),
{
}

/// Sprite priority at a dot over an opaque background: the first sprite
/// unit (in OAM order) with an opaque pixel decides. When bit 5 of its
/// attributes is clear it is in front, and the dot shows its colour in its
/// palette (4 plus the low two attribute bits); when the bit is set it is
/// behind, and the background covers it.
pub proof fn lemma_sprite_priority(units: Seq<SpriteOutputUnit>, bg_c: usize, bg_p: usize, j: int)
    requires
        0 <= j < units.len(),
        unit_opaque(units[j]),
        forall|k: int| 0 <= k < j ==> !unit_opaque(#[trigger] units[k]),
        bg_c != 0,
    ensures
        ({
            let sp = sp_pixel(units);
            let shown = mux_pixel(bg_c, bg_p, sp.0, sp.1, sp.2);
            let attr = units[j].sprite_info.attr;
            &&& attr & 0x20 == 0 ==> shown == (unit_color_sel(units[j]), (attr % 4 + 4) as usize)
            &&& attr & 0x20 != 0 ==> shown == (bg_c, bg_p)
        }),
{
    lemma_first_opaque_is(units, 0, j);
    let attr = units[j].sprite_info.attr;
    assert(attr & 0x03 == attr % 4) by (bit_vector);
}

/// Where no sprite unit has an opaque pixel, the background shows, or the
/// backdrop where it is transparent too.
pub proof fn lemma_no_sprite_shows_background(units: Seq<SpriteOutputUnit>, bg_c: usize, bg_p: usize)
    requires
        forall|k: int| 0 <= k < units.len() ==> !unit_opaque(#[trigger] units[k]),
    ensures
        ({
            let sp = sp_pixel(units);
            mux_pixel(bg_c, bg_p, sp.0, sp.1, sp.2) == if bg_c == 0 { (0usize, 0usize) } else { (bg_c, bg_p) }
        }),
{
    lemma_first_opaque_none(units, 0);
}

} // verus!
