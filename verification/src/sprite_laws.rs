//! What sprite evaluation gathers: the sprites that a visible line shows.
use vstd::prelude::*;
use crate::nes::NesModel;
use crate::ppu::{PpuModel, SpriteInfo, empty_sprite};
use crate::render::{ppu_dot, render_phase, render_pixel, shift_phase, units_phase, nt_phase, sprite_phase, advance_phase, evaluate_timing};
use crate::laws::lemma_ppu_dot_keeps;

verus! {

/// Whether OAM sprite `k` has a row on line `y` (sprites are eight lines high).
pub open spec fn covers(oam: Seq<u8>, k: int, y: u32) -> bool {
    let sy = oam[k * 4] as u32;
    sy <= y && y < sy + 8
}

/// OAM sprite `k`.
pub open spec fn sprite_at(oam: Seq<u8>, k: int) -> SpriteInfo {
    SpriteInfo { y: oam[k * 4], id: oam[k * 4 + 1], attr: oam[k * 4 + 2], x: oam[k * 4 + 3] }
}

/// The sprites among the first `n` of OAM that have a row on line `y`, in
/// OAM order, at most eight.
pub open spec fn gathered(oam: Seq<u8>, y: u32, n: nat) -> Seq<SpriteInfo>
    decreases n,
{
    if n == 0 {
        Seq::empty()
    } else {
        let g = gathered(oam, y, (n - 1) as nat);
        if covers(oam, n - 1, y) && g.len() < 8 {
            g.push(sprite_at(oam, n - 1))
        } else {
            g
        }
    }
}

/// Eight sprite slots: `g` first, then empty slots.
pub open spec fn slots(g: Seq<SpriteInfo>) -> Seq<SpriteInfo> {
    g + Seq::new((8 - g.len()) as nat, |i: int| empty_sprite())
}

/// The PPU after `n` cycles.
pub open spec fn dots(m: NesModel, n: nat) -> NesModel
    decreases n,
{
    if n == 0 {
        m
    } else {
        ppu_dot(dots(m, (n - 1) as nat))
    }
}

/// The state of the OAM scan after `k` scan steps: the sprites gathered from
/// the first `k` OAM entries (the scan stays at the last entry once there).
pub open spec fn scan_state(p: PpuModel, y: u32, k: nat) -> bool {
    let g = gathered(p.oam, y, if k < 64 { k } else { 64 });
    &&& p.oam_scan_index == if k < 63 { k } else { 63 }
    &&& p.oam_buf_index == g.len()
    &&& p.oam_buf == slots(g)
}

/// No more than eight sprites are gathered.
proof fn lemma_gathered_len(oam: Seq<u8>, y: u32, n: nat)
    ensures
        gathered(oam, y, n).len() <= 8,
    decreases n,
{
    if n > 0 {
        lemma_gathered_len(oam, y, (n - 1) as nat);
    }
}

/// On a visible line, before the last dot, a PPU cycle keeps OAM and the
/// line, moves to the next dot, and changes the sprite gathering only as
/// sprite evaluation does.
proof fn lemma_dot_scan(m: NesModel)
    requires
        m.wf(),
        m.ppu.scanline < 240,
        m.ppu.dot < 340,
    ensures
        ppu_dot(m).wf(),
        ppu_dot(m).ppu.dot == m.ppu.dot + 1,
        ppu_dot(m).ppu.scanline == m.ppu.scanline,
        ppu_dot(m).ppu.oam == m.ppu.oam,
        ppu_dot(m).ppu.oam_buf == sprite_phase(m).ppu.oam_buf,
        ppu_dot(m).ppu.oam_buf_index == sprite_phase(m).ppu.oam_buf_index,
        ppu_dot(m).ppu.oam_scan_index == sprite_phase(m).ppu.oam_scan_index,
        ppu_dot(m).ppu.secondary_oam == sprite_phase(m).ppu.secondary_oam,
{
    reveal(render_phase);
    reveal(render_pixel);
    reveal(units_phase);
    reveal(nt_phase);
    reveal(sprite_phase);
    lemma_ppu_dot_keeps(m);
    let m1 = render_phase(m);
    let m2 = shift_phase(m1);
    let m3 = units_phase(m2);
    let m4 = nt_phase(m3);
    let m5 = sprite_phase(m4);
    assert(m4.ppu.oam == m.ppu.oam && m4.ppu.dot == m.ppu.dot && m4.ppu.scanline == m.ppu.scanline);
    assert(m4.ppu.oam_buf == m.ppu.oam_buf && m4.ppu.oam_buf_index == m.ppu.oam_buf_index);
    assert(m4.ppu.oam_scan_index == m.ppu.oam_scan_index && m4.ppu.secondary_oam == m.ppu.secondary_oam);
    assert(m5.ppu.oam_buf == sprite_phase(m).ppu.oam_buf);
    assert(m5.ppu.oam_buf_index == sprite_phase(m).ppu.oam_buf_index);
    assert(m5.ppu.oam_scan_index == sprite_phase(m).ppu.oam_scan_index);
    assert(m5.ppu.secondary_oam == sprite_phase(m).ppu.secondary_oam);
}

/// One step of the OAM scan takes the next sprite into the gathering when it
/// has a row on the line and a slot is free.
proof fn lemma_scan_step(m: NesModel, k: nat)
    requires
        m.wf(),
        m.ppu.scanline < 240,
        evaluate_timing(m.ppu.dot, 0),
        scan_state(m.ppu, m.ppu.scanline, k),
        !covers(m.ppu.oam, 63, m.ppu.scanline),
    ensures
        scan_state(sprite_phase(m).ppu, m.ppu.scanline, k + 1),
        sprite_phase(m).ppu.oam == m.ppu.oam,
{
    reveal(sprite_phase);
    let p = m.ppu;
    let y = p.scanline;
    let n: nat = if k < 64 { k } else { 64 };
    let g = gathered(p.oam, y, n);
    lemma_gathered_len(p.oam, y, n);
    let q = sprite_phase(m).ppu;
    if k < 64 {
        assert(gathered(p.oam, y, k + 1) == if covers(p.oam, k as int, y) && g.len() < 8 {
            g.push(sprite_at(p.oam, k as int))
        } else {
            g
        });
        if covers(p.oam, k as int, y) && g.len() < 8 {
            assert(slots(g.push(sprite_at(p.oam, k as int))) =~= slots(g).update(g.len() as int, sprite_at(p.oam, k as int)));
        }
    }
}

/// The OAM scan of a visible line, dot by dot from dot 64: after `j` cycles
/// (`j` up to 193) it has made `j / 2` scan steps.
proof fn lemma_scan_progress(m: NesModel, j: nat)
    requires
        m.wf(),
        m.ppu.dot == 64,
        m.ppu.scanline < 240,
        !covers(m.ppu.oam, 63, m.ppu.scanline),
        1 <= j <= 193,
    ensures
        dots(m, j).wf(),
        dots(m, j).ppu.dot == 64 + j,
        dots(m, j).ppu.scanline == m.ppu.scanline,
        dots(m, j).ppu.oam == m.ppu.oam,
        scan_state(dots(m, j).ppu, m.ppu.scanline, j / 2),
    decreases j,
{
    let y = m.ppu.scanline;
    if j == 1 {
        reveal_with_fuel(dots, 2);
        lemma_dot_scan(m);
        reveal(sprite_phase);
        assert(gathered(m.ppu.oam, y, 0) =~= Seq::<SpriteInfo>::empty());
        assert(slots(Seq::<SpriteInfo>::empty()) =~= Seq::new(8, |i: int| empty_sprite()));
    } else {
        lemma_scan_progress(m, (j - 1) as nat);
        let s = dots(m, (j - 1) as nat);
        lemma_dot_scan(s);
        assert(dots(m, j) == ppu_dot(s));
        if j % 2 == 0 {
            lemma_scan_step(s, ((j - 1) / 2) as nat);
        } else {
            reveal(sprite_phase);
            assert(!evaluate_timing(s.ppu.dot, 0));
        }
    }
}

/// The sprites a visible line shows: sprite evaluation, run from dot 64 to
/// dot 257 of the line, gives the line the first eight sprites of OAM (in
/// OAM order) that have a row on the line, the other slots empty. (OAM
/// sprite 63 is left out: once the scan reaches it, it is looked at again
/// on every remaining step.)
pub proof fn lemma_line_sprites(m: NesModel)
    requires
        m.wf(),
        m.ppu.dot == 64,
        m.ppu.scanline < 240,
        !covers(m.ppu.oam, 63, m.ppu.scanline),
    ensures
        dots(m, 194).ppu.secondary_oam == slots(gathered(m.ppu.oam, m.ppu.scanline, 64)),
        dots(m, 194).ppu.dot == 258,
{
    lemma_scan_progress(m, 193);
    let s = dots(m, 193);
    lemma_dot_scan(s);
    reveal(sprite_phase);
    assert(dots(m, 194) == ppu_dot(s));
}

} // verus!
