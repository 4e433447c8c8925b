use vstd::prelude::*;

verus! {

/// The handle that refers to no prim.
pub const INVAILD_PRIM_HANDLE: i16 = -1;

/// What a prim draws, or that it groups other prims.
#[derive(Debug, Clone, Copy, PartialEq, Eq, Structural)]
pub enum PrimType {
    PrimTypeNone,
    PrimTypeGroup,
    PrimTypeTile,
    PrimTypeSprt,
    PrimTypeText,
    PrimTypeSnow,
}

impl Default for PrimType {
    fn default() -> (t: Self)
        ensures
            t == PrimType::PrimTypeNone,
    {
        PrimType::PrimTypeNone
    }
}

/// The state of one prim, field by field, as contracts speak of it.
pub struct PrimView {
    pub typ: PrimType,
    pub draw_flag: bool,
    pub alpha: i8,
    pub blend: bool,
    pub parent: i16,
    pub sprt: i16,
    pub grand_parent: i16,
    pub grand_son: i16,
    pub z: i16,
    pub x: i16,
    pub y: i16,
    pub w: i16,
    pub h: i16,
    pub u: i16,
    pub v: i16,
    pub opx: i16,
    pub opy: i16,
    pub rotation: i16,
    pub factor_x: i16,
    pub factor_y: i16,
    pub child: i16,
    pub group_args2: i16,
    pub mode: i16,
    pub tile: i16,
    pub text_index: i16,
    pub attr: u32,
}

/// One drawable node of the prim table. Nodes refer to each other by `i16`
/// handles into the table of a `PrimManager`.
#[derive(Debug, Clone)]
pub struct Prim {
    typ: PrimType,
    draw_flag: bool,
    alpha: i8,
    blend: bool,
    parent: i16,
    sprt: i16,
    grand_parent: i16,
    grand_son: i16,
    z: i16,
    x: i16,
    y: i16,
    w: i16,
    h: i16,
    u: i16,
    v: i16,
    opx: i16,
    opy: i16,
    rotation: i16,
    factor_x: i16,
    factor_y: i16,
    child: i16,
    group_args2: i16,
    mode: i16,
    tile: i16,
    text_index: i16,
    attr: u32,
}

impl View for Prim {
    type V = PrimView;

    closed spec fn view(&self) -> PrimView {
        PrimView {
            typ: self.typ,
            draw_flag: self.draw_flag,
            alpha: self.alpha,
            blend: self.blend,
            parent: self.parent,
            sprt: self.sprt,
            grand_parent: self.grand_parent,
            grand_son: self.grand_son,
            z: self.z,
            x: self.x,
            y: self.y,
            w: self.w,
            h: self.h,
            u: self.u,
            v: self.v,
            opx: self.opx,
            opy: self.opy,
            rotation: self.rotation,
            factor_x: self.factor_x,
            factor_y: self.factor_y,
            child: self.child,
            group_args2: self.group_args2,
            mode: self.mode,
            tile: self.tile,
            text_index: self.text_index,
            attr: self.attr,
        }
    }
}

/// The state of a freshly made prim: no type, every number zero, every flag off.
pub open spec fn initial_prim() -> PrimView {
    PrimView {
        typ: PrimType::PrimTypeNone,
        draw_flag: false,
        alpha: 0,
        blend: false,
        parent: 0,
        sprt: 0,
        grand_parent: 0,
        grand_son: 0,
        z: 0,
        x: 0,
        y: 0,
        w: 0,
        h: 0,
        u: 0,
        v: 0,
        opx: 0,
        opy: 0,
        rotation: 0,
        factor_x: 0,
        factor_y: 0,
        child: 0,
        group_args2: 0,
        mode: 0,
        tile: 0,
        text_index: 0,
        attr: 0,
    }
}

/// One call of a setter of a prim, with the value it writes.
pub enum PrimWrite {
    Typ(PrimType),
    DrawFlag(bool),
    Alpha(i8),
    Blend(bool),
    Parent(i16),
    Sprt(i16),
    GrandParent(i16),
    GrandSon(i16),
    Z(i16),
    X(i16),
    Y(i16),
    W(i16),
    H(i16),
    U(i16),
    V(i16),
    Opx(i16),
    Opy(i16),
    Rotation(i16),
    FactorX(i16),
    FactorY(i16),
    Child(i16),
    GroupArgs2(i16),
    Mode(i16),
    Tile(i16),
    TextIndex(i16),
    Attr(u32),
    ApplyAttr(u32),
}

/// The state that the setter named by `w` leaves, from `v`.
pub open spec fn prim_after(v: PrimView, w: PrimWrite) -> PrimView {
    match w {
        PrimWrite::Typ(x) => PrimView { typ: x, ..v },
        PrimWrite::DrawFlag(x) => PrimView { draw_flag: x, ..v },
        PrimWrite::Alpha(x) => PrimView { alpha: x, ..v },
        PrimWrite::Blend(x) => PrimView { blend: x, ..v },
        PrimWrite::Parent(x) => PrimView { parent: x, ..v },
        PrimWrite::Sprt(x) => PrimView { sprt: x, ..v },
        PrimWrite::GrandParent(x) => PrimView { grand_parent: x, ..v },
        PrimWrite::GrandSon(x) => PrimView { grand_son: x, ..v },
        PrimWrite::Z(x) => PrimView { z: x, ..v },
        PrimWrite::X(x) => PrimView { x: x, ..v },
        PrimWrite::Y(x) => PrimView { y: x, ..v },
        PrimWrite::W(x) => PrimView { w: x, ..v },
        PrimWrite::H(x) => PrimView { h: x, ..v },
        PrimWrite::U(x) => PrimView { u: x, ..v },
        PrimWrite::V(x) => PrimView { v: x, ..v },
        PrimWrite::Opx(x) => PrimView { opx: x, ..v },
        PrimWrite::Opy(x) => PrimView { opy: x, ..v },
        PrimWrite::Rotation(x) => PrimView { rotation: x, ..v },
        PrimWrite::FactorX(x) => PrimView { factor_x: x, ..v },
        PrimWrite::FactorY(x) => PrimView { factor_y: x, ..v },
        PrimWrite::Child(x) => PrimView { child: x, ..v },
        PrimWrite::GroupArgs2(x) => PrimView { group_args2: x, ..v },
        PrimWrite::Mode(x) => PrimView { mode: x, ..v },
        PrimWrite::Tile(x) => PrimView { tile: x, ..v },
        PrimWrite::TextIndex(x) => PrimView { text_index: x, ..v },
        PrimWrite::Attr(x) => PrimView { attr: x, ..v },
        PrimWrite::ApplyAttr(x) => PrimView { attr: v.attr | x, ..v },
    }
}

/// The field that `w` writes, by its place in the prim.
pub open spec fn prim_write_field(w: PrimWrite) -> int {
    match w {
        PrimWrite::Typ(_) => 0,
        PrimWrite::DrawFlag(_) => 1,
        PrimWrite::Alpha(_) => 2,
        PrimWrite::Blend(_) => 3,
        PrimWrite::Parent(_) => 4,
        PrimWrite::Sprt(_) => 5,
        PrimWrite::GrandParent(_) => 6,
        PrimWrite::GrandSon(_) => 7,
        PrimWrite::Z(_) => 8,
        PrimWrite::X(_) => 9,
        PrimWrite::Y(_) => 10,
        PrimWrite::W(_) => 11,
        PrimWrite::H(_) => 12,
        PrimWrite::U(_) => 13,
        PrimWrite::V(_) => 14,
        PrimWrite::Opx(_) => 15,
        PrimWrite::Opy(_) => 16,
        PrimWrite::Rotation(_) => 17,
        PrimWrite::FactorX(_) => 18,
        PrimWrite::FactorY(_) => 19,
        PrimWrite::Child(_) => 20,
        PrimWrite::GroupArgs2(_) => 21,
        PrimWrite::Mode(_) => 22,
        PrimWrite::Tile(_) => 23,
        PrimWrite::TextIndex(_) => 24,
        PrimWrite::Attr(_) => 25,
        PrimWrite::ApplyAttr(_) => 25,
    }
}

/// `v` holds what `w` writes.
pub open spec fn prim_holds(v: PrimView, w: PrimWrite) -> bool {
    match w {
        PrimWrite::Typ(x) => v.typ == x,
        PrimWrite::DrawFlag(x) => v.draw_flag == x,
        PrimWrite::Alpha(x) => v.alpha == x,
        PrimWrite::Blend(x) => v.blend == x,
        PrimWrite::Parent(x) => v.parent == x,
        PrimWrite::Sprt(x) => v.sprt == x,
        PrimWrite::GrandParent(x) => v.grand_parent == x,
        PrimWrite::GrandSon(x) => v.grand_son == x,
        PrimWrite::Z(x) => v.z == x,
        PrimWrite::X(x) => v.x == x,
        PrimWrite::Y(x) => v.y == x,
        PrimWrite::W(x) => v.w == x,
        PrimWrite::H(x) => v.h == x,
        PrimWrite::U(x) => v.u == x,
        PrimWrite::V(x) => v.v == x,
        PrimWrite::Opx(x) => v.opx == x,
        PrimWrite::Opy(x) => v.opy == x,
        PrimWrite::Rotation(x) => v.rotation == x,
        PrimWrite::FactorX(x) => v.factor_x == x,
        PrimWrite::FactorY(x) => v.factor_y == x,
        PrimWrite::Child(x) => v.child == x,
        PrimWrite::GroupArgs2(x) => v.group_args2 == x,
        PrimWrite::Mode(x) => v.mode == x,
        PrimWrite::Tile(x) => v.tile == x,
        PrimWrite::TextIndex(x) => v.text_index == x,
        PrimWrite::Attr(x) => v.attr == x,
        PrimWrite::ApplyAttr(x) => v.attr | x == v.attr,
    }
}

/// The state that the setter calls `ws`, in order, leave from `v`.
pub open spec fn prim_after_all(v: PrimView, ws: Seq<PrimWrite>) -> PrimView
    decreases ws.len(),
{
    if ws.len() == 0 {
        v
    } else {
        prim_after(prim_after_all(v, ws.drop_last()), ws.last())
    }
}

/// A setter keeps every field but its own.
proof fn lemma_prim_other_write_keeps(v: PrimView, wj: PrimWrite, wk: PrimWrite)
    requires
        prim_holds(v, wk),
        prim_write_field(wj) != prim_write_field(wk),
    ensures
        prim_holds(prim_after(v, wj), wk),
{
    match wj {
        PrimWrite::Typ(_) => {},
        PrimWrite::DrawFlag(_) => {},
        PrimWrite::Alpha(_) => {},
        PrimWrite::Blend(_) => {},
        PrimWrite::Parent(_) => {},
        PrimWrite::Sprt(_) => {},
        PrimWrite::GrandParent(_) => {},
        PrimWrite::GrandSon(_) => {},
        PrimWrite::Z(_) => {},
        PrimWrite::X(_) => {},
        PrimWrite::Y(_) => {},
        PrimWrite::W(_) => {},
        PrimWrite::H(_) => {},
        PrimWrite::U(_) => {},
        PrimWrite::V(_) => {},
        PrimWrite::Opx(_) => {},
        PrimWrite::Opy(_) => {},
        PrimWrite::Rotation(_) => {},
        PrimWrite::FactorX(_) => {},
        PrimWrite::FactorY(_) => {},
        PrimWrite::Child(_) => {},
        PrimWrite::GroupArgs2(_) => {},
        PrimWrite::Mode(_) => {},
        PrimWrite::Tile(_) => {},
        PrimWrite::TextIndex(_) => {},
        PrimWrite::Attr(_) => {},
        PrimWrite::ApplyAttr(_) => {},
    }
}

/// A getter gives back what the last call of its setter wrote: after the
/// setter calls `ws`, in order, from any state, the field that `ws[k]` writes
/// holds the value `ws[k]` wrote when no later call writes that field.
pub proof fn lemma_prim_last_write_wins(v: PrimView, ws: Seq<PrimWrite>, k: int)
    requires
        0 <= k < ws.len(),
        forall|j: int|
            k < j < ws.len() ==> prim_write_field(#[trigger] ws[j]) != prim_write_field(
                ws[k],
            ),
    ensures
        prim_holds(prim_after_all(v, ws), ws[k]),
    decreases ws.len(),
{
    let w = prim_after_all(v, ws.drop_last());
    if k == ws.len() - 1 {
        if let PrimWrite::ApplyAttr(x) = ws[k] {
            let a = w.attr;
            assert((a | x) | x == a | x) by (bit_vector);
        }
    } else {
        assert forall|j: int| k < j < ws.drop_last().len() implies prim_write_field(
            #[trigger] ws.drop_last()[j],
        ) != prim_write_field(ws.drop_last()[k]) by {
            assert(ws.drop_last()[j] == ws[j]);
        }
        lemma_prim_last_write_wins(v, ws.drop_last(), k);
        assert(ws.drop_last()[k] == ws[k]);
        assert(ws[ws.len() - 1] == ws.last());
        lemma_prim_other_write_keeps(w, ws.last(), ws[k]);
    }
}

impl Prim {
    pub fn new() -> (p: Self)
        ensures
            p@ == initial_prim(),
    {
        Prim {
            typ: PrimType::PrimTypeNone,
            draw_flag: false,
            alpha: 0,
            blend: false,
            parent: 0,
            sprt: 0,
            grand_parent: 0,
            grand_son: 0,
            z: 0,
            x: 0,
            y: 0,
            w: 0,
            h: 0,
            u: 0,
            v: 0,
            opx: 0,
            opy: 0,
            rotation: 0,
            factor_x: 0,
            factor_y: 0,
            child: 0,
            group_args2: 0,
            mode: 0,
            tile: 0,
            text_index: 0,
            attr: 0,
        }
    }

    pub fn set_type(&mut self, typ: PrimType)
        ensures
            final(self)@ == prim_after(old(self)@, PrimWrite::Typ(typ)),
    {
        self.typ = typ;
    }

    pub fn set_draw_flag(&mut self, draw_flag: bool)
        ensures
            final(self)@ == prim_after(old(self)@, PrimWrite::DrawFlag(draw_flag)),
    {
        self.draw_flag = draw_flag;
    }

    pub fn set_alpha(&mut self, alpha: i8)
        ensures
            final(self)@ == prim_after(old(self)@, PrimWrite::Alpha(alpha)),
    {
        self.alpha = alpha;
    }

    pub fn set_blend(&mut self, blend: bool)
        ensures
            final(self)@ == prim_after(old(self)@, PrimWrite::Blend(blend)),
    {
        self.blend = blend;
    }

    pub fn set_parent(&mut self, parent: i16)
        ensures
            final(self)@ == prim_after(old(self)@, PrimWrite::Parent(parent)),
    {
        self.parent = parent;
    }

    pub fn set_sprt(&mut self, sprt: i16)
        ensures
            final(self)@ == prim_after(old(self)@, PrimWrite::Sprt(sprt)),
    {
        self.sprt = sprt;
    }

    pub fn set_grand_parent(&mut self, grand_parent: i16)
        ensures
            final(self)@ == prim_after(old(self)@, PrimWrite::GrandParent(grand_parent)),
    {
        self.grand_parent = grand_parent;
    }

    pub fn set_grand_son(&mut self, grand_son: i16)
        ensures
            final(self)@ == prim_after(old(self)@, PrimWrite::GrandSon(grand_son)),
    {
        self.grand_son = grand_son;
    }

    pub fn set_z(&mut self, z: i16)
        ensures
            final(self)@ == prim_after(old(self)@, PrimWrite::Z(z)),
    {
        self.z = z;
    }

    pub fn set_x(&mut self, x: i16)
        ensures
            final(self)@ == prim_after(old(self)@, PrimWrite::X(x)),
    {
        self.x = x;
    }

    pub fn set_y(&mut self, y: i16)
        ensures
            final(self)@ == prim_after(old(self)@, PrimWrite::Y(y)),
    {
        self.y = y;
    }

    pub fn set_w(&mut self, w: i16)
        ensures
            final(self)@ == prim_after(old(self)@, PrimWrite::W(w)),
    {
        self.w = w;
    }

    pub fn set_h(&mut self, h: i16)
        ensures
            final(self)@ == prim_after(old(self)@, PrimWrite::H(h)),
    {
        self.h = h;
    }

    pub fn set_u(&mut self, u: i16)
        ensures
            final(self)@ == prim_after(old(self)@, PrimWrite::U(u)),
    {
        self.u = u;
    }

    pub fn set_v(&mut self, v: i16)
        ensures
            final(self)@ == prim_after(old(self)@, PrimWrite::V(v)),
    {
        self.v = v;
    }

    pub fn set_opx(&mut self, opx: i16)
        ensures
            final(self)@ == prim_after(old(self)@, PrimWrite::Opx(opx)),
    {
        self.opx = opx;
    }

    pub fn set_opy(&mut self, opy: i16)
        ensures
            final(self)@ == prim_after(old(self)@, PrimWrite::Opy(opy)),
    {
        self.opy = opy;
    }

    pub fn set_rotation(&mut self, rotation: i16)
        ensures
            final(self)@ == prim_after(old(self)@, PrimWrite::Rotation(rotation)),
    {
        self.rotation = rotation;
    }

    pub fn set_factor_x(&mut self, factor_x: i16)
        ensures
            final(self)@ == prim_after(old(self)@, PrimWrite::FactorX(factor_x)),
    {
        self.factor_x = factor_x;
    }

    pub fn set_factor_y(&mut self, factor_y: i16)
        ensures
            final(self)@ == prim_after(old(self)@, PrimWrite::FactorY(factor_y)),
    {
        self.factor_y = factor_y;
    }

    pub fn set_child(&mut self, child: i16)
        ensures
            final(self)@ == prim_after(old(self)@, PrimWrite::Child(child)),
    {
        self.child = child;
    }

    pub fn set_group_args2(&mut self, group_args2: i16)
        ensures
            final(self)@ == prim_after(old(self)@, PrimWrite::GroupArgs2(group_args2)),
    {
        self.group_args2 = group_args2;
    }

    pub fn set_mode(&mut self, mode: i16)
        ensures
            final(self)@ == prim_after(old(self)@, PrimWrite::Mode(mode)),
    {
        self.mode = mode;
    }

    pub fn set_tile(&mut self, tile: i16)
        ensures
            final(self)@ == prim_after(old(self)@, PrimWrite::Tile(tile)),
    {
        self.tile = tile;
    }

    pub fn set_text_index(&mut self, text_index: i16)
        ensures
            final(self)@ == prim_after(old(self)@, PrimWrite::TextIndex(text_index)),
    {
        self.text_index = text_index;
    }

    pub fn set_attr(&mut self, attr: u32)
        ensures
            final(self)@ == prim_after(old(self)@, PrimWrite::Attr(attr)),
    {
        self.attr = attr;
    }

    /// Sets, in addition to those already set, the bits of `attr`.
    pub fn apply_attr(&mut self, attr: u32)
        ensures
            final(self)@ == prim_after(old(self)@, PrimWrite::ApplyAttr(attr)),
    {
        self.attr = self.attr | attr;
    }

    pub fn get_type(&self) -> (r: PrimType)
        ensures
            r == self@.typ,
    {
        self.typ
    }

    pub fn get_draw_flag(&self) -> (r: bool)
        ensures
            r == self@.draw_flag,
    {
        self.draw_flag
    }

    pub fn get_alpha(&self) -> (r: i8)
        ensures
            r == self@.alpha,
    {
        self.alpha
    }

    pub fn get_blend(&self) -> (r: bool)
        ensures
            r == self@.blend,
    {
        self.blend
    }

    pub fn get_parent(&self) -> (r: i16)
        ensures
            r == self@.parent,
    {
        self.parent
    }

    pub fn get_sprt(&self) -> (r: i16)
        ensures
            r == self@.sprt,
    {
        self.sprt
    }

    pub fn get_grand_parent(&self) -> (r: i16)
        ensures
            r == self@.grand_parent,
    {
        self.grand_parent
    }

    pub fn get_grand_son(&self) -> (r: i16)
        ensures
            r == self@.grand_son,
    {
        self.grand_son
    }

    pub fn get_z(&self) -> (r: i16)
        ensures
            r == self@.z,
    {
        self.z
    }

    pub fn get_x(&self) -> (r: i16)
        ensures
            r == self@.x,
    {
        self.x
    }

    pub fn get_y(&self) -> (r: i16)
        ensures
            r == self@.y,
    {
        self.y
    }

    pub fn get_w(&self) -> (r: i16)
        ensures
            r == self@.w,
    {
        self.w
    }

    pub fn get_h(&self) -> (r: i16)
        ensures
            r == self@.h,
    {
        self.h
    }

    pub fn get_u(&self) -> (r: i16)
        ensures
            r == self@.u,
    {
        self.u
    }

    pub fn get_v(&self) -> (r: i16)
        ensures
            r == self@.v,
    {
        self.v
    }

    pub fn get_opx(&self) -> (r: i16)
        ensures
            r == self@.opx,
    {
        self.opx
    }

    pub fn get_opy(&self) -> (r: i16)
        ensures
            r == self@.opy,
    {
        self.opy
    }

    pub fn get_rotation(&self) -> (r: i16)
        ensures
            r == self@.rotation,
    {
        self.rotation
    }

    pub fn get_factor_x(&self) -> (r: i16)
        ensures
            r == self@.factor_x,
    {
        self.factor_x
    }

    pub fn get_factor_y(&self) -> (r: i16)
        ensures
            r == self@.factor_y,
    {
        self.factor_y
    }

    pub fn get_child(&self) -> (r: i16)
        ensures
            r == self@.child,
    {
        self.child
    }

    pub fn get_group_args2(&self) -> (r: i16)
        ensures
            r == self@.group_args2,
    {
        self.group_args2
    }

    pub fn get_mode(&self) -> (r: i16)
        ensures
            r == self@.mode,
    {
        self.mode
    }

    pub fn get_tile(&self) -> (r: i16)
        ensures
            r == self@.tile,
    {
        self.tile
    }

    pub fn get_text_index(&self) -> (r: i16)
        ensures
            r == self@.text_index,
    {
        self.text_index
    }

    pub fn get_attr(&self) -> (r: u32)
        ensures
            r == self@.attr,
    {
        self.attr
    }

}

impl Default for Prim {
    fn default() -> (p: Self)
        ensures
            p@ == initial_prim(),
    {
        Prim::new()
    }
}

// ---------------------------------------------------------------------------
// The prim table and the spec of its link operations.
//
// A group prim lists its members through handles: `child` is the first
// member, `group_args2` the last; a member names its group in `parent`, the
// member before it in `grand_parent` and the one after it in `grand_son`.
// A handle is usable when it indexes the table; `INVAILD_PRIM_HANDLE` (and
// every other negative value) indexes nothing.
// ---------------------------------------------------------------------------

/// `h` indexes a prim of `s`.
pub open spec fn handle_ok(s: Seq<PrimView>, h: i16) -> bool {
    0 <= h < s.len()
}

/// Unlinking `id` from its group indexes only prims of `s`: the group
/// handle is read only when `id` is first or last, the predecessor handle
/// only when `id` is not both.
pub open spec fn unlink_ok(s: Seq<PrimView>, id: i16) -> bool {
    &&& handle_ok(s, id)
    &&& s[id as int].parent != INVAILD_PRIM_HANDLE ==> {
        &&& (s[id as int].grand_parent == INVAILD_PRIM_HANDLE || s[id as int].grand_son
            == INVAILD_PRIM_HANDLE) ==> handle_ok(s, s[id as int].parent)
        &&& (s[id as int].grand_parent != INVAILD_PRIM_HANDLE || s[id as int].grand_son
            != INVAILD_PRIM_HANDLE) ==> handle_ok(s, s[id as int].grand_parent)
    }
}

/// The table after unlinking `id` from its group: the prim before it (or the
/// group, when it is first) is pointed past it; when it is last the group's
/// last member becomes the prim before it, otherwise the prim before it gets
/// its own handle as predecessor; `id` loses its group. A prim with no group
/// is left as it is.
pub open spec fn unlinked(s: Seq<PrimView>, id: i16) -> Seq<PrimView> {
    let p = s[id as int];
    if p.parent == INVAILD_PRIM_HANDLE {
        s
    } else {
        let par = p.parent as int;
        let gp = p.grand_parent as int;
        let s1 = if p.grand_parent == INVAILD_PRIM_HANDLE {
            s.update(par, PrimView { child: p.grand_son, ..s[par] })
        } else {
            s.update(gp, PrimView { grand_son: p.grand_son, ..s[gp] })
        };
        let s2 = if p.grand_son == INVAILD_PRIM_HANDLE {
            s1.update(par, PrimView { group_args2: p.grand_parent, ..s1[par] })
        } else {
            s1.update(gp, PrimView { grand_parent: p.grand_parent, ..s1[gp] })
        };
        s2.update(id as int, PrimView { parent: INVAILD_PRIM_HANDLE, ..s2[id as int] })
    }
}

/// Unlinking `c` reads and writes no prim with handle `id`.
pub open spec fn unlink_avoids(s: Seq<PrimView>, c: i16, id: i16) -> bool {
    let p = s[c as int];
    &&& c != id
    &&& p.parent != INVAILD_PRIM_HANDLE ==> {
        &&& (p.grand_parent == INVAILD_PRIM_HANDLE || p.grand_son == INVAILD_PRIM_HANDLE)
            ==> p.parent != id
        &&& (p.grand_parent != INVAILD_PRIM_HANDLE || p.grand_son != INVAILD_PRIM_HANDLE)
            ==> p.grand_parent != id
    }
}

/// Walks the members of group `id` from `c`, unlinking each and going on to
/// the one after it, in at most `fuel` steps. `None` when the walk does not end
/// in that many steps, indexes outside the table or touches `id` itself.
pub open spec fn detach_members(s: Seq<PrimView>, id: i16, c: i16, fuel: nat) -> Option<
    Seq<PrimView>,
>
    decreases fuel,
{
    if c == INVAILD_PRIM_HANDLE {
        Some(s)
    } else if fuel == 0 {
        None
    } else if unlink_ok(s, c) && unlink_avoids(s, c, id) {
        let s1 = unlinked(s, c);
        detach_members(s1, id, s1[c as int].grand_son, (fuel - 1) as nat)
    } else {
        None
    }
}

/// The members of `id` can all be detached: it has none, or the walk over
/// them ends in some number of steps.
pub open spec fn detach_ends(s: Seq<PrimView>, id: i16) -> bool {
    ||| s[id as int].child == INVAILD_PRIM_HANDLE
    ||| exists|f: nat| #[trigger] detach_members(s, id, s[id as int].child, f) is Some
}

/// A number of steps in which the members of `id` can all be detached, when
/// there is one.
pub open spec fn detach_fuel(s: Seq<PrimView>, id: i16) -> nat {
    choose|f: nat| #[trigger] detach_members(s, id, s[id as int].child, f) is Some
}

/// The table once every member of `id` is detached.
pub open spec fn detached(s: Seq<PrimView>, id: i16) -> Seq<PrimView> {
    detach_members(s, id, s[id as int].child, detach_fuel(s, id)).unwrap()
}

/// Re-typing `id` as `typ` indexes only prims of the table and ends.
pub open spec fn init_ok(s: Seq<PrimView>, id: i16, typ: PrimType) -> bool {
    &&& handle_ok(s, id)
    &&& (s[id as int].typ != typ && s[id as int].typ == PrimType::PrimTypeGroup) ==> detach_ends(
        s,
        id,
    )
}

/// The table after re-typing `id` as `typ`: a group that changes type first
/// detaches its members; a prim that changes type is drawn again, and a new
/// group starts empty at the origin; in any case the sprite is cleared.
pub open spec fn init_result(s: Seq<PrimView>, id: i16, typ: PrimType) -> Seq<PrimView> {
    let p = s[id as int];
    if p.typ != typ {
        let s1 = if p.typ == PrimType::PrimTypeGroup {
            detached(s, id)
        } else {
            s
        };
        let q = s1[id as int];
        let q1 = if typ == PrimType::PrimTypeGroup {
            PrimView {
                typ,
                draw_flag: true,
                child: INVAILD_PRIM_HANDLE,
                group_args2: INVAILD_PRIM_HANDLE,
                x: 0,
                y: 0,
                sprt: INVAILD_PRIM_HANDLE,
                ..q
            }
        } else {
            PrimView { typ, draw_flag: true, sprt: INVAILD_PRIM_HANDLE, ..q }
        };
        s1.update(id as int, q1)
    } else {
        s.update(id as int, PrimView { sprt: INVAILD_PRIM_HANDLE, ..p })
    }
}

/// Moving `i` after `r` indexes only prims of the table and never makes one
/// prim two of the prims that are changed.
pub open spec fn move_ok(s: Seq<PrimView>, r: i16, i: i16) -> bool {
    &&& unlink_ok(s, i)
    &&& handle_ok(s, r)
    &&& {
        let s1 = unlinked(s, i);
        let pid = s1[r as int].parent;
        pid != INVAILD_PRIM_HANDLE ==> {
            &&& r != i
            &&& s1[r as int].grand_son == INVAILD_PRIM_HANDLE ==> {
                &&& handle_ok(s1, pid)
                &&& pid != i
                &&& pid != r
            }
        }
    }
}

/// The table after moving `i` to stand right after `r` in the group of `r`:
/// `i` is unlinked first; when `r` has a group, `i` joins it after `r`, and
/// when `r` was last, `i` becomes the group's last member. When `r` has no
/// group, `i` is only unlinked.
pub open spec fn moved(s: Seq<PrimView>, r: i16, i: i16) -> Seq<PrimView> {
    let s1 = unlinked(s, i);
    let root = s1[r as int];
    let pid = root.parent;
    if pid == INVAILD_PRIM_HANDLE {
        s1
    } else if root.grand_son == INVAILD_PRIM_HANDLE {
        s1.update(
            i as int,
            PrimView { parent: pid, grand_parent: r, grand_son: INVAILD_PRIM_HANDLE, ..s1[i as int] },
        ).update(r as int, PrimView { grand_son: i, ..root }).update(
            pid as int,
            PrimView { group_args2: i, ..s1[pid as int] },
        )
    } else {
        s1.update(
            i as int,
            PrimView { parent: pid, grand_parent: r, grand_son: root.grand_son, ..s1[i as int] },
        ).update(r as int, PrimView { grand_son: i, ..root })
    }
}

/// Adding `i` to group `r` indexes only prims of the table and never makes
/// one prim two of the prims that are changed.
pub open spec fn group_in_ok(s: Seq<PrimView>, r: i16, i: i16) -> bool {
    &&& init_ok(s, r, PrimType::PrimTypeGroup)
    &&& {
        let s1 = init_result(s, r, PrimType::PrimTypeGroup);
        &&& unlink_ok(s1, i)
        &&& r != i
        &&& {
            let s2 = unlinked(s1, i);
            s2[r as int].child != INVAILD_PRIM_HANDLE ==> {
                let a = s2[r as int].group_args2;
                &&& handle_ok(s2, a)
                &&& a != i
                &&& a != r
                &&& {
                    let b = s2[a as int].group_args2;
                    &&& handle_ok(s2, b)
                    &&& b != i
                    &&& b != r
                }
            }
        }
    }
}

/// `i`, already out of any group, joins group `r` as its last member. In an
/// empty group `i` becomes first and last member; otherwise `i` follows the
/// last member `a`, and the prim named by `a`'s own `group_args2` is pointed
/// at `i`.
pub open spec fn joined(s2: Seq<PrimView>, r: i16, i: i16) -> Seq<PrimView> {
    let root = s2[r as int];
    if root.child == INVAILD_PRIM_HANDLE {
        s2.update(
            i as int,
            PrimView {
                parent: r,
                grand_son: INVAILD_PRIM_HANDLE,
                grand_parent: INVAILD_PRIM_HANDLE,
                ..s2[i as int]
            },
        ).update(r as int, PrimView { child: i, group_args2: i, ..root })
    } else {
        let a = root.group_args2;
        let b = s2[a as int].group_args2;
        s2.update(
            i as int,
            PrimView { parent: r, grand_son: INVAILD_PRIM_HANDLE, grand_parent: a, ..s2[i as int] },
        ).update(b as int, PrimView { grand_son: i, ..s2[b as int] }).update(
            r as int,
            PrimView { group_args2: i, ..root },
        )
    }
}

/// The table after adding `i` as the last member of group `r`: `r` becomes a
/// group (see `init_result`), `i` is unlinked from where it was and joins `r`
/// (see `joined`).
pub open spec fn grouped_in(s: Seq<PrimView>, r: i16, i: i16) -> Seq<PrimView> {
    joined(unlinked(init_result(s, r, PrimType::PrimTypeGroup), i), r, i)
}

/// The table of prims that scripts draw with, addressed by handle.
#[derive(Debug, Clone)]
pub struct PrimManager {
    prims: Vec<Prim>,
}

impl View for PrimManager {
    type V = Seq<PrimView>;

    closed spec fn view(&self) -> Seq<PrimView> {
        self.prims@.map_values(|p: Prim| p@)
    }
}

impl Default for PrimManager {
    /// An empty table.
    fn default() -> (m: Self)
        ensures
            m@.len() == 0,
    {
        PrimManager { prims: Vec::new() }
    }
}


/// Detaching members changes no length.
proof fn lemma_detach_len(s: Seq<PrimView>, id: i16, c: i16, fuel: nat)
    requires
        detach_members(s, id, c, fuel) is Some,
    ensures
        detach_members(s, id, c, fuel).unwrap().len() == s.len(),
    decreases fuel,
{
    if c != INVAILD_PRIM_HANDLE {
        let s1 = unlinked(s, c);
        lemma_detach_len(s1, id, s1[c as int].grand_son, (fuel - 1) as nat);
    }
}

impl PrimManager {
    /// A table of 4096 fresh prims.
    pub fn new() -> (m: Self)
        ensures
            m@.len() == 4096,
            forall|i: int| 0 <= i < 4096 ==> #[trigger] m@[i] == initial_prim(),
    {
        let mut prims: Vec<Prim> = Vec::new();
        let mut k: usize = 0;
        while k < 4096
            invariant
                k <= 4096,
                prims@.len() == k,
                forall|i: int| 0 <= i < k ==> #[trigger] prims@[i]@ == initial_prim(),
            decreases 4096 - k,
        {
            prims.push(Prim::new());
            k = k + 1;
        }
        PrimManager { prims }
    }

    /// The prim with handle `id`.
    pub fn get_prim(&self, id: i16) -> (p: &Prim)
        requires
            handle_ok(self@, id),
        ensures
            p@ == self@[id as int],
    {
        &self.prims[id as usize]
    }

    /// The prim with handle `h`, to change in place; the table then holds
    /// the prim as the caller leaves it.
    pub fn get_prim_mut(&mut self, h: i16) -> (p: &mut Prim)
        requires
            handle_ok(old(self)@, h),
        ensures
            p@ == old(self)@[h as int],
            final(self)@ == old(self)@.update(h as int, final(p)@),
    {
        &mut self.prims[h as usize]
    }
}


impl PrimManager {
    /// Takes prim `id` out of the group it belongs to; a prim in no group is
    /// left as it is.
    pub fn unlink_prim(&mut self, id: i16)
        requires
            unlink_ok(old(self)@, id),
        ensures
            final(self)@ == unlinked(old(self)@, id),
            final(self)@.len() == old(self)@.len(),
            final(self)@[id as int].parent == INVAILD_PRIM_HANDLE,
    {
        let ghost s0 = self@;
        let parent = self.get_prim(id).get_parent();
        if parent != INVAILD_PRIM_HANDLE {
            let grand_parent = self.get_prim(id).get_grand_parent();
            if grand_parent == INVAILD_PRIM_HANDLE {
                let next_id = self.get_prim(id).get_grand_son();
                self.get_prim_mut(parent).set_child(next_id);
            } else {
                let next_id = self.get_prim(id).get_grand_son();
                self.get_prim_mut(grand_parent).set_grand_son(next_id);
            }
            assert(self@[id as int].grand_son == s0[id as int].grand_son);
            assert(self@[id as int].grand_parent == s0[id as int].grand_parent);
            assert(self@[id as int].parent == s0[id as int].parent);
            let grand_son = self.get_prim(id).get_grand_son();
            let grand_parent = self.get_prim(id).get_grand_parent();
            if grand_son == INVAILD_PRIM_HANDLE {
                let parent = self.get_prim(id).get_parent();
                self.get_prim_mut(parent).set_group_args2(grand_parent);
            } else {
                self.get_prim_mut(grand_parent).set_grand_parent(grand_parent);
            }
            self.get_prim_mut(id).set_parent(INVAILD_PRIM_HANDLE);
        }
    }
}


impl PrimManager {
    /// Gives prim `id` the type `typ`. A group that changes type first takes
    /// each of its members out of it; a prim that changes type is drawn again,
    /// and a new group starts empty at the origin. The sprite is cleared in
    /// any case.
    pub fn prim_init_with_type(&mut self, id: i16, typ: PrimType)
        requires
            init_ok(old(self)@, id, typ),
        ensures
            final(self)@ == init_result(old(self)@, id, typ),
            final(self)@.len() == old(self)@.len(),
            final(self)@[id as int].typ == typ,
            final(self)@[id as int].sprt == INVAILD_PRIM_HANDLE,
    {
        let ghost s0 = self@;
        let cur = self.get_prim(id).get_type();
        if cur != typ {
            if cur == PrimType::PrimTypeGroup {
                let ghost mut fuel: nat = detach_fuel(s0, id);
                let ghost target = detached(s0, id);
                let mut child = self.get_prim(id).get_child();
                while child != INVAILD_PRIM_HANDLE
                    invariant
                        detach_members(self@, id, child, fuel) == Some(target),
                    decreases fuel,
                {
                    self.unlink_prim(child);
                    child = self.get_prim(child).get_grand_son();
                    proof {
                        fuel = (fuel - 1) as nat;
                    }
                }
                proof {
                    lemma_detach_len(s0, id, s0[id as int].child, detach_fuel(s0, id));
                }
            }
            let prim = self.get_prim_mut(id);
            prim.set_type(typ);
            prim.set_draw_flag(true);
            if typ == PrimType::PrimTypeGroup {
                prim.set_child(INVAILD_PRIM_HANDLE);
                prim.set_group_args2(INVAILD_PRIM_HANDLE);
                prim.set_x(0);
                prim.set_y(0);
            }
        }
        self.get_prim_mut(id).set_sprt(INVAILD_PRIM_HANDLE);
    }
}


impl PrimManager {
    /// Unlinks prim `id` and, when prim `new_root` belongs to a group, links
    /// `id` into that group right after `new_root`. Both handles are taken
    /// as `i16`, their low 16 bits.
    pub fn prim_move(&mut self, new_root: i32, id: i32)
        requires
            move_ok(old(self)@, new_root as i16, id as i16),
        ensures
            final(self)@ == moved(old(self)@, new_root as i16, id as i16),
            final(self)@.len() == old(self)@.len(),
            final(self)@[id as i16 as int].parent == unlinked(old(self)@, id as i16)[new_root as i16 as int].parent,
            unlinked(old(self)@, id as i16)[new_root as i16 as int].parent != INVAILD_PRIM_HANDLE ==> {
                &&& final(self)@[new_root as i16 as int].grand_son == id as i16
                &&& final(self)@[id as i16 as int].grand_parent == new_root as i16
            },
    {
        let r = new_root as i16;
        let i = id as i16;
        self.unlink_prim(i);
        let ghost s1 = self@;
        let parent_id = self.get_prim(r).get_parent();
        if parent_id != INVAILD_PRIM_HANDLE {
            let prim = self.get_prim_mut(i);
            prim.set_parent(parent_id);
            prim.set_grand_parent(r);
            assert(self@[r as int] == s1[r as int]);
            if self.get_prim(r).get_grand_son() == INVAILD_PRIM_HANDLE {
                self.get_prim_mut(i).set_grand_son(INVAILD_PRIM_HANDLE);
                self.get_prim_mut(r).set_grand_son(i);
                assert(self@[r as int].parent == s1[r as int].parent);
                let parent_id = self.get_prim(r).get_parent();
                self.get_prim_mut(parent_id).set_group_args2(i);
            } else {
                let grand_son = self.get_prim(r).get_grand_son();
                self.get_prim_mut(i).set_grand_son(grand_son);
                self.get_prim_mut(r).set_grand_son(i);
            }
        }
    }

    /// Makes prim `new_root` a group (see `prim_init_with_type`) and adds
    /// prim `id` to it as its last member, after taking `id` out of the group
    /// it was in. Both handles are taken as `i16`, their low 16 bits.
    pub fn set_prim_group_in(&mut self, new_root: i32, id: i32)
        requires
            group_in_ok(old(self)@, new_root as i16, id as i16),
        ensures
            final(self)@ == grouped_in(old(self)@, new_root as i16, id as i16),
            final(self)@.len() == old(self)@.len(),
            final(self)@[new_root as i16 as int].typ == PrimType::PrimTypeGroup,
            final(self)@[new_root as i16 as int].group_args2 == id as i16,
            final(self)@[id as i16 as int].parent == new_root as i16,
            final(self)@[id as i16 as int].grand_son == INVAILD_PRIM_HANDLE,
            unlinked(init_result(old(self)@, new_root as i16, PrimType::PrimTypeGroup), id as i16)[new_root as i16 as int].child
                == INVAILD_PRIM_HANDLE ==> {
                &&& final(self)@[new_root as i16 as int].child == id as i16
                &&& final(self)@[id as i16 as int].grand_parent == INVAILD_PRIM_HANDLE
            },
    {
        let r = new_root as i16;
        let i = id as i16;
        self.prim_init_with_type(r, PrimType::PrimTypeGroup);
        self.unlink_prim(i);
        let ghost s2 = self@;
        assert(s2 == unlinked(init_result(old(self)@, r, PrimType::PrimTypeGroup), i));
        let prim = self.get_prim_mut(i);
        prim.set_parent(r);
        prim.set_grand_son(INVAILD_PRIM_HANDLE);
        assert(self@[r as int] == s2[r as int]);
        if self.get_prim(r).get_child() == INVAILD_PRIM_HANDLE {
            self.get_prim_mut(i).set_grand_parent(INVAILD_PRIM_HANDLE);
            self.get_prim_mut(r).set_child(i);
        } else {
            let arg2 = self.get_prim(r).get_group_args2();
            self.get_prim_mut(i).set_grand_parent(arg2);
            assert(self@[arg2 as int] == s2[arg2 as int]);
            let arg2 = self.get_prim(arg2).get_group_args2();
            self.get_prim_mut(arg2).set_grand_son(i);
        }
        self.get_prim_mut(r).set_group_args2(i);
        assert(self@ == joined(s2, r, i));
    }
}

impl PrimManager {
    /// Sets the origin point (`opx`, `opy`) of prim `id`. The handle is taken as `i16`, its low 16 bits.
    pub fn prim_set_op(&mut self, id: i32, opx: i32, opy: i32)
        requires
            handle_ok(old(self)@, id as i16),
        ensures
            final(self)@ == old(self)@.update(
                id as i16 as int,
                PrimView { opx: opx as i16, opy: opy as i16, ..old(self)@[id as i16 as int] },
            ),
    {
        let prim = self.get_prim_mut(id as i16);
        prim.set_opx(opx as i16);
        prim.set_opy(opy as i16);
    }

    /// Sets the alpha of prim `id` to the low 8 bits of `alpha`. The handle is taken as `i16`, its low 16 bits.
    pub fn prim_set_alpha(&mut self, id: i32, alpha: i32)
        requires
            handle_ok(old(self)@, id as i16),
        ensures
            final(self)@ == old(self)@.update(
                id as i16 as int,
                PrimView { alpha: alpha as i8, ..old(self)@[id as i16 as int] },
            ),
    {
        let prim = self.get_prim_mut(id as i16);
        prim.set_alpha(alpha as i8);
    }

    /// Turns blending of prim `id` on when `blend` is not zero, off otherwise. The handle is taken as `i16`, its low 16 bits.
    pub fn prim_set_blend(&mut self, id: i32, blend: i32)
        requires
            handle_ok(old(self)@, id as i16),
        ensures
            final(self)@ == old(self)@.update(
                id as i16 as int,
                PrimView { blend: blend != 0, ..old(self)@[id as i16 as int] },
            ),
    {
        let prim = self.get_prim_mut(id as i16);
        prim.set_blend(blend != 0);
    }

    /// Turns drawing of prim `id` on when `draw` is not zero, off otherwise. The handle is taken as `i16`, its low 16 bits.
    pub fn prim_set_draw(&mut self, id: i32, draw: i32)
        requires
            handle_ok(old(self)@, id as i16),
        ensures
            final(self)@ == old(self)@.update(
                id as i16 as int,
                PrimView { draw_flag: draw != 0, ..old(self)@[id as i16 as int] },
            ),
    {
        let prim = self.get_prim_mut(id as i16);
        prim.set_draw_flag(draw != 0);
    }

    /// Sets the rotation of prim `id`. The handle is taken as `i16`, its low 16 bits.
    pub fn prim_set_rotation(&mut self, id: i32, rotation: i32)
        requires
            handle_ok(old(self)@, id as i16),
        ensures
            final(self)@ == old(self)@.update(
                id as i16 as int,
                PrimView { rotation: rotation as i16, ..old(self)@[id as i16 as int] },
            ),
    {
        let prim = self.get_prim_mut(id as i16);
        prim.set_rotation(rotation as i16);
    }

    /// Sets the scale factors of prim `id`. The handle is taken as `i16`, its low 16 bits.
    pub fn prim_set_scale(&mut self, id: i32, factor_x: i32, factor_y: i32)
        requires
            handle_ok(old(self)@, id as i16),
        ensures
            final(self)@ == old(self)@.update(
                id as i16 as int,
                PrimView { factor_x: factor_x as i16, factor_y: factor_y as i16, ..old(self)@[id as i16 as int] },
            ),
    {
        let prim = self.get_prim_mut(id as i16);
        prim.set_factor_x(factor_x as i16);
        prim.set_factor_y(factor_y as i16);
    }

    /// Sets the texture coordinates of prim `id`. The handle is taken as `i16`, its low 16 bits.
    pub fn prim_set_uv(&mut self, id: i32, u: i32, v: i32)
        requires
            handle_ok(old(self)@, id as i16),
        ensures
            final(self)@ == old(self)@.update(
                id as i16 as int,
                PrimView { u: u as i16, v: v as i16, ..old(self)@[id as i16 as int] },
            ),
    {
        let prim = self.get_prim_mut(id as i16);
        prim.set_u(u as i16);
        prim.set_v(v as i16);
    }

    /// Sets the size of prim `id`. The handle is taken as `i16`, its low 16 bits.
    pub fn prim_set_size(&mut self, id: i32, w: i32, h: i32)
        requires
            handle_ok(old(self)@, id as i16),
        ensures
            final(self)@ == old(self)@.update(
                id as i16 as int,
                PrimView { w: w as i16, h: h as i16, ..old(self)@[id as i16 as int] },
            ),
    {
        let prim = self.get_prim_mut(id as i16);
        prim.set_w(w as i16);
        prim.set_h(h as i16);
    }

    /// Sets the position of prim `id`. The handle is taken as `i16`, its low 16 bits.
    pub fn prim_set_pos(&mut self, id: i32, x: i32, y: i32)
        requires
            handle_ok(old(self)@, id as i16),
        ensures
            final(self)@ == old(self)@.update(
                id as i16 as int,
                PrimView { x: x as i16, y: y as i16, ..old(self)@[id as i16 as int] },
            ),
    {
        let prim = self.get_prim_mut(id as i16);
        prim.set_x(x as i16);
        prim.set_y(y as i16);
    }

    /// Sets the sprite of prim `id`. The handle is taken as `i16`, its low 16 bits.
    pub fn prim_set_sprt(&mut self, id: i32, sprt: i32)
        requires
            handle_ok(old(self)@, id as i16),
        ensures
            final(self)@ == old(self)@.update(
                id as i16 as int,
                PrimView { sprt: sprt as i16, ..old(self)@[id as i16 as int] },
            ),
    {
        let prim = self.get_prim_mut(id as i16);
        prim.set_sprt(sprt as i16);
    }

    /// Sets the depth of prim `id`. The handle is taken as `i16`, its low 16 bits.
    pub fn prim_set_z(&mut self, id: i32, z: i32)
        requires
            handle_ok(old(self)@, id as i16),
        ensures
            final(self)@ == old(self)@.update(
                id as i16 as int,
                PrimView { z: z as i16, ..old(self)@[id as i16 as int] },
            ),
    {
        let prim = self.get_prim_mut(id as i16);
        prim.set_z(z as i16);
    }

    /// Sets the mode of prim `id`. The handle is taken as `i16`, its low 16 bits.
    pub fn prim_set_mode(&mut self, id: i32, mode: i32)
        requires
            handle_ok(old(self)@, id as i16),
        ensures
            final(self)@ == old(self)@.update(
                id as i16 as int,
                PrimView { mode: mode as i16, ..old(self)@[id as i16 as int] },
            ),
    {
        let prim = self.get_prim_mut(id as i16);
        prim.set_mode(mode as i16);
    }

    /// Sets the text slot of prim `id`. The handle is taken as `i16`, its low 16 bits.
    pub fn prim_set_text(&mut self, id: i32, text_index: i32)
        requires
            handle_ok(old(self)@, id as i16),
        ensures
            final(self)@ == old(self)@.update(
                id as i16 as int,
                PrimView { text_index: text_index as i16, ..old(self)@[id as i16 as int] },
            ),
    {
        let prim = self.get_prim_mut(id as i16);
        prim.set_text_index(text_index as i16);
    }

    /// Sets the tile of prim `id`. The handle is taken as `i16`, its low 16 bits.
    pub fn prim_set_tile(&mut self, id: i32, tile: i32)
        requires
            handle_ok(old(self)@, id as i16),
        ensures
            final(self)@ == old(self)@.update(
                id as i16 as int,
                PrimView { tile: tile as i16, ..old(self)@[id as i16 as int] },
            ),
    {
        let prim = self.get_prim_mut(id as i16);
        prim.set_tile(tile as i16);
    }

    /// Adds the bits of `mask` to the attributes of prim `id`. The handle is
    /// taken as `i16`, its low 16 bits.
    pub fn prim_add_attr(&mut self, id: i32, mask: u32)
        requires
            handle_ok(old(self)@, id as i16),
        ensures
            final(self)@ == old(self)@.update(
                id as i16 as int,
                PrimView { attr: old(self)@[id as i16 as int].attr | mask, ..old(self)@[id as i16 as int] },
            ),
    {
        let prim = self.get_prim_mut(id as i16);
        let attr = prim.get_attr();
        prim.set_attr(attr | mask);
    }

    /// Keeps, of the attributes of prim `id`, only the bits that are in
    /// `mask`. The handle is taken as `i16`, its low 16 bits.
    pub fn prim_remove_attr(&mut self, id: i32, mask: u32)
        requires
            handle_ok(old(self)@, id as i16),
        ensures
            final(self)@ == old(self)@.update(
                id as i16 as int,
                PrimView { attr: old(self)@[id as i16 as int].attr & mask, ..old(self)@[id as i16 as int] },
            ),
    {
        let prim = self.get_prim_mut(id as i16);
        let attr = prim.get_attr();
        prim.set_attr(attr & mask);
    }

    /// Sets the attributes of prim `id` to the bits of `attr`. The handle is
    /// taken as `i16`, its low 16 bits.
    pub fn prim_set_attr(&mut self, id: i32, attr: i32)
        requires
            handle_ok(old(self)@, id as i16),
        ensures
            final(self)@ == old(self)@.update(
                id as i16 as int,
                PrimView { attr: attr as u32, ..old(self)@[id as i16 as int] },
            ),
    {
        let prim = self.get_prim_mut(id as i16);
        prim.set_attr(attr as u32);
    }

    /// The type of prim `id`. The handle is taken as `i16`, its low 16 bits.
    pub fn prim_get_type(&self, id: i32) -> (t: PrimType)
        requires
            handle_ok(self@, id as i16),
        ensures
            t == self@[id as i16 as int].typ,
    {
        self.get_prim(id as i16).get_type()
    }
}


/// Unlinking a prim a second time changes nothing: after the first time it
/// belongs to no group.
pub proof fn lemma_unlink_idempotent(s: Seq<PrimView>, id: i16)
    requires
        unlink_ok(s, id),
    ensures
        unlink_ok(unlinked(s, id), id),
        unlinked(unlinked(s, id), id) == unlinked(s, id),
{
}

/// Giving a prim the type it was just given changes nothing.
pub proof fn lemma_init_idempotent(s: Seq<PrimView>, id: i16, typ: PrimType)
    requires
        init_ok(s, id, typ),
    ensures
        init_ok(init_result(s, id, typ), id, typ),
        init_result(init_result(s, id, typ), id, typ) == init_result(s, id, typ),
{
    if s[id as int].typ != typ && s[id as int].typ == PrimType::PrimTypeGroup {
        lemma_detach_len(s, id, s[id as int].child, detach_fuel(s, id));
    }
    let t = init_result(s, id, typ);
    assert(t.update(id as int, PrimView { sprt: INVAILD_PRIM_HANDLE, ..t[id as int] }) =~= t);
}

/// Adding a prim to a group with no members and then unlinking it again
/// leaves the group with no members and the prim in no group, with no
/// neighbours; every other prim is as it was before the prim joined.
pub proof fn lemma_lone_member_unlink(s: Seq<PrimView>, r: i16, i: i16)
    requires
        group_in_ok(s, r, i),
        unlinked(init_result(s, r, PrimType::PrimTypeGroup), i)[r as int].child
            == INVAILD_PRIM_HANDLE,
    ensures
        unlink_ok(grouped_in(s, r, i), i),
        ({
            let s2 = unlinked(init_result(s, r, PrimType::PrimTypeGroup), i);
            unlinked(grouped_in(s, r, i), i) == s2.update(
                i as int,
                PrimView {
                    grand_son: INVAILD_PRIM_HANDLE,
                    grand_parent: INVAILD_PRIM_HANDLE,
                    ..s2[i as int]
                },
            ).update(r as int, PrimView { group_args2: INVAILD_PRIM_HANDLE, ..s2[r as int] })
        }),
{
    let s1 = init_result(s, r, PrimType::PrimTypeGroup);
    let s2 = unlinked(s1, i);
    let t = grouped_in(s, r, i);
    assert(t == joined(s2, r, i));
    let expected = s2.update(
        i as int,
        PrimView {
            grand_son: INVAILD_PRIM_HANDLE,
            grand_parent: INVAILD_PRIM_HANDLE,
            ..s2[i as int]
        },
    ).update(r as int, PrimView { group_args2: INVAILD_PRIM_HANDLE, ..s2[r as int] });
    assert(unlinked(t, i) =~= expected);
}

/// Unlinking a prim from its group: afterwards it names no group; the prim
/// before it (or the group, when none is before it) is pointed at the prim
/// after it; when it was last, the group's last member becomes the prim before
/// it; when it was not last, the prim before it is made its own predecessor.
/// No other prim changes, and a prim in no group changes nothing.
pub proof fn lemma_unlink_links_around(s: Seq<PrimView>, id: i16)
    requires
        unlink_ok(s, id),
    ensures
        ({
            let p = s[id as int];
            let t = unlinked(s, id);
            &&& t.len() == s.len()
            &&& t[id as int].parent == INVAILD_PRIM_HANDLE
            &&& p.parent == INVAILD_PRIM_HANDLE ==> t == s
            &&& p.parent != INVAILD_PRIM_HANDLE ==> {
                &&& p.grand_parent != INVAILD_PRIM_HANDLE ==> t[p.grand_parent as int].grand_son
                    == p.grand_son
                &&& p.grand_parent == INVAILD_PRIM_HANDLE ==> t[p.parent as int].child
                    == p.grand_son
                &&& p.grand_son == INVAILD_PRIM_HANDLE ==> t[p.parent as int].group_args2
                    == p.grand_parent
                &&& p.grand_son != INVAILD_PRIM_HANDLE ==> t[p.grand_parent as int].grand_parent
                    == p.grand_parent
                &&& forall|j: int|
                    0 <= j < s.len() && j != id && j != p.parent && j != p.grand_parent
                        ==> #[trigger] t[j] == s[j]
            }
        }),
{
}

/// Walking the members of a group and unlinking them leaves the group prim
/// as it was, changes no prim's group except to none, and takes the member
/// it starts from out of its group.
proof fn lemma_detach_members_effect(s: Seq<PrimView>, id: i16, c: i16, fuel: nat)
    requires
        handle_ok(s, id),
        detach_members(s, id, c, fuel) is Some,
    ensures
        ({
            let t = detach_members(s, id, c, fuel).unwrap();
            &&& t.len() == s.len()
            &&& t[id as int] == s[id as int]
            &&& forall|j: int|
                0 <= j < s.len() ==> (#[trigger] t[j]).parent == s[j].parent || t[j].parent
                    == INVAILD_PRIM_HANDLE
            &&& c != INVAILD_PRIM_HANDLE ==> t[c as int].parent == INVAILD_PRIM_HANDLE
        }),
    decreases fuel,
{
    if c != INVAILD_PRIM_HANDLE {
        let s1 = unlinked(s, c);
        lemma_unlink_links_around(s, c);
        assert(s1[id as int] == s[id as int]);
        assert forall|j: int| 0 <= j < s.len() implies (#[trigger] s1[j]).parent == s[j].parent
            || s1[j].parent == INVAILD_PRIM_HANDLE by {
            if s[c as int].parent != INVAILD_PRIM_HANDLE && j != c {
            }
        }
        lemma_detach_members_effect(s1, id, s1[c as int].grand_son, (fuel - 1) as nat);
        let t = detach_members(s1, id, s1[c as int].grand_son, (fuel - 1) as nat).unwrap();
        assert forall|j: int| 0 <= j < s.len() implies (#[trigger] t[j]).parent == s[j].parent
            || t[j].parent == INVAILD_PRIM_HANDLE by {
            assert(t[j].parent == s1[j].parent || t[j].parent == INVAILD_PRIM_HANDLE);
            assert(s1[j].parent == s[j].parent || s1[j].parent == INVAILD_PRIM_HANDLE);
        }
    }
}

/// Giving a group another type takes its first member out of the group; no
/// prim's group changes except to none, and the prim itself keeps its own
/// group and links.
pub proof fn lemma_retyped_group_detaches_members(s: Seq<PrimView>, id: i16, typ: PrimType)
    requires
        init_ok(s, id, typ),
        s[id as int].typ == PrimType::PrimTypeGroup,
        typ != PrimType::PrimTypeGroup,
    ensures
        ({
            let t = init_result(s, id, typ);
            let c = s[id as int].child;
            &&& t.len() == s.len()
            &&& c != INVAILD_PRIM_HANDLE ==> t[c as int].parent == INVAILD_PRIM_HANDLE
            &&& forall|j: int|
                0 <= j < s.len() ==> (#[trigger] t[j]).parent == s[j].parent || t[j].parent
                    == INVAILD_PRIM_HANDLE
            &&& t[id as int].child == s[id as int].child
            &&& t[id as int].group_args2 == s[id as int].group_args2
            &&& t[id as int].typ == typ
        }),
{
    lemma_detach_members_effect(s, id, s[id as int].child, detach_fuel(s, id));
    let s1 = detached(s, id);
    let t = init_result(s, id, typ);
    assert forall|j: int| 0 <= j < s.len() implies (#[trigger] t[j]).parent == s[j].parent
        || t[j].parent == INVAILD_PRIM_HANDLE by {
        if j != id {
            assert(t[j] == s1[j]);
        }
    }
}

/// Moving `i` after `r`: `i` is unlinked first; when `r` is in a group, `i`
/// joins that group right after `r` and takes over the prim that followed
/// `r`, and when `r` was last, `i` becomes the group's last member. No other
/// prim changes. When `r` is in no group, `i` is only unlinked.
pub proof fn lemma_move_links_after(s: Seq<PrimView>, r: i16, i: i16)
    requires
        move_ok(s, r, i),
    ensures
        ({
            let s1 = unlinked(s, i);
            let t = moved(s, r, i);
            let pid = s1[r as int].parent;
            let next = s1[r as int].grand_son;
            &&& t.len() == s.len()
            &&& pid == INVAILD_PRIM_HANDLE ==> t == s1
            &&& pid != INVAILD_PRIM_HANDLE ==> {
                &&& t[i as int].parent == pid
                &&& t[i as int].grand_parent == r
                &&& t[i as int].grand_son == next
                &&& t[r as int].grand_son == i
                &&& t[r as int].parent == pid
                &&& next == INVAILD_PRIM_HANDLE ==> t[pid as int].group_args2 == i
                &&& forall|j: int|
                    0 <= j < s.len() && j != i && j != r && (next == INVAILD_PRIM_HANDLE ==> j
                        != pid) ==> #[trigger] t[j] == s1[j]
            }
        }),
{
    lemma_unlink_links_around(s, i);
}

/// Adding `i` to group `r`: `r` is a group whose last member is `i`, and `i`
/// names `r` as its group and has no successor. In a group with no members
/// `i` becomes the first member with no predecessor; otherwise the first
/// member stays, `i`'s predecessor is the group's former last member, and the
/// prim named by that member's `group_args2` is pointed at `i`.
pub proof fn lemma_group_in_appends(s: Seq<PrimView>, r: i16, i: i16)
    requires
        group_in_ok(s, r, i),
    ensures
        ({
            let s2 = unlinked(init_result(s, r, PrimType::PrimTypeGroup), i);
            let t = grouped_in(s, r, i);
            let last = s2[r as int].group_args2;
            &&& t.len() == s.len()
            &&& t[r as int].typ == PrimType::PrimTypeGroup
            &&& t[r as int].group_args2 == i
            &&& t[i as int].parent == r
            &&& t[i as int].grand_son == INVAILD_PRIM_HANDLE
            &&& s2[r as int].child == INVAILD_PRIM_HANDLE ==> {
                &&& t[r as int].child == i
                &&& t[i as int].grand_parent == INVAILD_PRIM_HANDLE
            }
            &&& s2[r as int].child != INVAILD_PRIM_HANDLE ==> {
                &&& t[r as int].child == s2[r as int].child
                &&& t[i as int].grand_parent == last
                &&& t[s2[last as int].group_args2 as int].grand_son == i
            }
            &&& forall|j: int|
                0 <= j < s.len() && j != i && j != r && (s2[r as int].child
                    != INVAILD_PRIM_HANDLE ==> j != s2[last as int].group_args2) ==> #[trigger] t[j]
                    == s2[j]
        }),
{
    let s1 = init_result(s, r, PrimType::PrimTypeGroup);
    lemma_unlink_links_around(s1, i);
}

/// Giving a prim a type: it has that type and no sprite afterwards. A prim
/// that changes type is drawn, and a new group has no members and stands at
/// the origin; its other fields stay. A prim that keeps its type only loses
/// its sprite. Only a group that changes type changes other prims, by taking
/// its members out of it.
pub proof fn lemma_init_sets_type(s: Seq<PrimView>, id: i16, typ: PrimType)
    requires
        init_ok(s, id, typ),
    ensures
        ({
            let t = init_result(s, id, typ);
            let p = s[id as int];
            &&& t.len() == s.len()
            &&& t[id as int].typ == typ
            &&& t[id as int].sprt == INVAILD_PRIM_HANDLE
            &&& t[id as int].parent == p.parent
            &&& t[id as int].grand_parent == p.grand_parent
            &&& t[id as int].grand_son == p.grand_son
            &&& t[id as int].alpha == p.alpha
            &&& t[id as int].attr == p.attr
            &&& p.typ == typ ==> {
                &&& t[id as int].draw_flag == p.draw_flag
                &&& t[id as int].child == p.child
                &&& t[id as int].group_args2 == p.group_args2
                &&& t[id as int].x == p.x
                &&& t[id as int].y == p.y
            }
            &&& p.typ != typ ==> t[id as int].draw_flag
            &&& (p.typ != typ && typ == PrimType::PrimTypeGroup) ==> {
                &&& t[id as int].child == INVAILD_PRIM_HANDLE
                &&& t[id as int].group_args2 == INVAILD_PRIM_HANDLE
                &&& t[id as int].x == 0
                &&& t[id as int].y == 0
            }
            &&& (p.typ != typ && typ != PrimType::PrimTypeGroup) ==> {
                &&& t[id as int].child == p.child
                &&& t[id as int].group_args2 == p.group_args2
                &&& t[id as int].x == p.x
                &&& t[id as int].y == p.y
            }
            &&& !(p.typ != typ && p.typ == PrimType::PrimTypeGroup) ==> forall|j: int|
                0 <= j < s.len() && j != id ==> #[trigger] t[j] == s[j]
        }),
{
    if s[id as int].typ != typ && s[id as int].typ == PrimType::PrimTypeGroup {
        lemma_detach_members_effect(s, id, s[id as int].child, detach_fuel(s, id));
    }
}

} // verus!
