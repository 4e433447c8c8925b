use vstd::prelude::*;

verus! {

/// The state of one part, as contracts speak of it.
pub struct PartsItemView {
    pub prim_id: u16,
    pub r_value: u8,
    pub g_value: u8,
    pub b_value: u8,
    pub running: bool,
}

/// One part: the prim it draws with and the colour it is tinted with.
#[derive(Debug, Clone)]
pub struct PartsItem {
    prim_id: u16,
    r_value: u8,
    g_value: u8,
    b_value: u8,
    running: bool,
}

impl View for PartsItem {
    type V = PartsItemView;

    closed spec fn view(&self) -> PartsItemView {
        PartsItemView {
            prim_id: self.prim_id,
            r_value: self.r_value,
            g_value: self.g_value,
            b_value: self.b_value,
            running: self.running,
        }
    }
}

/// The state of a fresh part: every number zero, not running.
pub open spec fn initial_item() -> PartsItemView {
    PartsItemView {
        prim_id: 0,
        r_value: 0,
        g_value: 0,
        b_value: 0,
        running: false,
    }
}

impl PartsItem {
    pub fn new() -> (p: Self)
        ensures
            p@ == initial_item(),
    {
        Self {
            prim_id: 0,
            r_value: 0,
            g_value: 0,
            b_value: 0,
            running: false,
        }
    }
}

/// The state of one part motion, as contracts speak of it.
pub struct PartsMotionView {
    pub running: bool,
    pub parts_id: u8,
    pub dest_alpha: u8,
    pub id: u16,
    pub elapsed: u32,
    pub duration: u32,
}

/// A fade of a part towards an alpha over a duration.
#[derive(Debug, Clone)]
pub struct PartsMotion {
    running: bool,
    parts_id: u8,
    dest_alpha: u8,
    id: u16,
    elapsed: u32,
    duration: u32,
}

impl View for PartsMotion {
    type V = PartsMotionView;

    closed spec fn view(&self) -> PartsMotionView {
        PartsMotionView {
            running: self.running,
            parts_id: self.parts_id,
            dest_alpha: self.dest_alpha,
            id: self.id,
            elapsed: self.elapsed,
            duration: self.duration,
        }
    }
}

/// The state of a fresh motion: every number zero, not running.
pub open spec fn initial_motion() -> PartsMotionView {
    PartsMotionView {
        running: false,
        parts_id: 0,
        dest_alpha: 0,
        id: 0,
        elapsed: 0,
        duration: 0,
    }
}

/// One call of a setter of a motion, with the value it writes.
pub enum MotionWrite {
    Running(bool),
    PartsId(u8),
    DestAlpha(u8),
    Id(u16),
    Elapsed(u32),
    Duration(u32),
}

/// The state that the setter named by `w` leaves, from `v`.
pub open spec fn motion_after(v: PartsMotionView, w: MotionWrite) -> PartsMotionView {
    match w {
        MotionWrite::Running(x) => PartsMotionView { running: x, ..v },
        MotionWrite::PartsId(x) => PartsMotionView { parts_id: x, ..v },
        MotionWrite::DestAlpha(x) => PartsMotionView { dest_alpha: x, ..v },
        MotionWrite::Id(x) => PartsMotionView { id: x, ..v },
        MotionWrite::Elapsed(x) => PartsMotionView { elapsed: x, ..v },
        MotionWrite::Duration(x) => PartsMotionView { duration: x, ..v },
    }
}

/// The field that `w` writes, by its place in the motion.
pub open spec fn motion_write_field(w: MotionWrite) -> int {
    match w {
        MotionWrite::Running(_) => 0,
        MotionWrite::PartsId(_) => 1,
        MotionWrite::DestAlpha(_) => 2,
        MotionWrite::Id(_) => 3,
        MotionWrite::Elapsed(_) => 4,
        MotionWrite::Duration(_) => 5,
    }
}

/// `v` holds what `w` writes.
pub open spec fn motion_holds(v: PartsMotionView, w: MotionWrite) -> bool {
    match w {
        MotionWrite::Running(x) => v.running == x,
        MotionWrite::PartsId(x) => v.parts_id == x,
        MotionWrite::DestAlpha(x) => v.dest_alpha == x,
        MotionWrite::Id(x) => v.id == x,
        MotionWrite::Elapsed(x) => v.elapsed == x,
        MotionWrite::Duration(x) => v.duration == x,
    }
}

/// The state that the setter calls `ws`, in order, leave from `v`.
pub open spec fn motion_after_all(v: PartsMotionView, ws: Seq<MotionWrite>) -> PartsMotionView
    decreases ws.len(),
{
    if ws.len() == 0 {
        v
    } else {
        motion_after(motion_after_all(v, ws.drop_last()), ws.last())
    }
}

/// A setter keeps every field but its own.
proof fn lemma_motion_other_write_keeps(v: PartsMotionView, wj: MotionWrite, wk: MotionWrite)
    requires
        motion_holds(v, wk),
        motion_write_field(wj) != motion_write_field(wk),
    ensures
        motion_holds(motion_after(v, wj), wk),
{
    match wj {
        MotionWrite::Running(_) => {},
        MotionWrite::PartsId(_) => {},
        MotionWrite::DestAlpha(_) => {},
        MotionWrite::Id(_) => {},
        MotionWrite::Elapsed(_) => {},
        MotionWrite::Duration(_) => {},
    }
}

/// A getter gives back what the last call of its setter wrote: after the
/// setter calls `ws`, in order, from any state, the field that `ws[k]` writes
/// holds the value `ws[k]` wrote when no later call writes that field.
pub proof fn lemma_motion_last_write_wins(v: PartsMotionView, ws: Seq<MotionWrite>, k: int)
    requires
        0 <= k < ws.len(),
        forall|j: int|
            k < j < ws.len() ==> motion_write_field(#[trigger] ws[j]) != motion_write_field(
                ws[k],
            ),
    ensures
        motion_holds(motion_after_all(v, ws), ws[k]),
    decreases ws.len(),
{
    let w = motion_after_all(v, ws.drop_last());
    if k == ws.len() - 1 {

    } else {
        assert forall|j: int| k < j < ws.drop_last().len() implies motion_write_field(
            #[trigger] ws.drop_last()[j],
        ) != motion_write_field(ws.drop_last()[k]) by {
            assert(ws.drop_last()[j] == ws[j]);
        }
        lemma_motion_last_write_wins(v, ws.drop_last(), k);
        assert(ws.drop_last()[k] == ws[k]);
        assert(ws[ws.len() - 1] == ws.last());
        lemma_motion_other_write_keeps(w, ws.last(), ws[k]);
    }
}

impl PartsMotion {
    pub fn new() -> (m: Self)
        ensures
            m@ == initial_motion(),
    {
        Self {
            running: false,
            parts_id: 0,
            dest_alpha: 0,
            id: 0,
            elapsed: 0,
            duration: 0,
        }
    }

    pub fn set_running(&mut self, running: bool)
        ensures
            final(self)@ == motion_after(old(self)@, MotionWrite::Running(running)),
    {
        self.running = running;
    }

    pub fn set_parts_id(&mut self, parts_id: u8)
        ensures
            final(self)@ == motion_after(old(self)@, MotionWrite::PartsId(parts_id)),
    {
        self.parts_id = parts_id;
    }

    pub fn set_dest_alpha(&mut self, dest_alpha: u8)
        ensures
            final(self)@ == motion_after(old(self)@, MotionWrite::DestAlpha(dest_alpha)),
    {
        self.dest_alpha = dest_alpha;
    }

    pub fn set_id(&mut self, id: u16)
        ensures
            final(self)@ == motion_after(old(self)@, MotionWrite::Id(id)),
    {
        self.id = id;
    }

    pub fn set_elapsed(&mut self, elapsed: u32)
        ensures
            final(self)@ == motion_after(old(self)@, MotionWrite::Elapsed(elapsed)),
    {
        self.elapsed = elapsed;
    }

    pub fn set_duration(&mut self, duration: u32)
        ensures
            final(self)@ == motion_after(old(self)@, MotionWrite::Duration(duration)),
    {
        self.duration = duration;
    }

    pub fn get_running(&self) -> (r: bool)
        ensures
            r == self@.running,
    {
        self.running
    }

    pub fn get_parts_id(&self) -> (r: u8)
        ensures
            r == self@.parts_id,
    {
        self.parts_id
    }

    pub fn get_dest_alpha(&self) -> (r: u8)
        ensures
            r == self@.dest_alpha,
    {
        self.dest_alpha
    }

    pub fn get_id(&self) -> (r: u16)
        ensures
            r == self@.id,
    {
        self.id
    }

    pub fn get_elapsed(&self) -> (r: u32)
        ensures
            r == self@.elapsed,
    {
        self.elapsed
    }

    pub fn get_duration(&self) -> (r: u32)
        ensures
            r == self@.duration,
    {
        self.duration
    }

}

/// A motion that runs for part `parts_id`.
pub open spec fn motion_matches(m: PartsMotionView, parts_id: u8) -> bool {
    m.running && m.parts_id == parts_id
}

/// The index of the first motion at or after `k` that runs for `parts_id`;
/// `ms.len()` when there is none.
pub open spec fn first_match_from(ms: Seq<PartsMotionView>, parts_id: u8, k: int) -> int
    decreases ms.len() - k,
{
    if k >= ms.len() {
        ms.len() as int
    } else if motion_matches(ms[k], parts_id) {
        k
    } else {
        first_match_from(ms, parts_id, k + 1)
    }
}

/// The index of the first motion that runs for `parts_id`; `ms.len()` when
/// there is none.
pub open spec fn first_match(ms: Seq<PartsMotionView>, parts_id: u8) -> int {
    first_match_from(ms, parts_id, 0)
}

/// `c` lowered by one, but not below zero.
pub open spec fn lowered(c: u8) -> u8 {
    if c > 0 {
        (c - 1) as u8
    } else {
        0
    }
}

/// What `first_match_from` finds: a motion that matches, after none that does.
pub proof fn lemma_first_match_from(ms: Seq<PartsMotionView>, parts_id: u8, k: int)
    requires
        0 <= k <= ms.len(),
    ensures
        k <= first_match_from(ms, parts_id, k) <= ms.len(),
        first_match_from(ms, parts_id, k) < ms.len() ==> motion_matches(
            ms[first_match_from(ms, parts_id, k)],
            parts_id,
        ),
        forall|j: int|
            k <= j < first_match_from(ms, parts_id, k) ==> !motion_matches(
                #[trigger] ms[j],
                parts_id,
            ),
    decreases ms.len() - k,
{
    if k < ms.len() && !motion_matches(ms[k], parts_id) {
        lemma_first_match_from(ms, parts_id, k + 1);
    }
}

/// The parts of a scene, the motions that fade them, and the pool of motion
/// ids handed back when a motion stops.
#[derive(Debug)]
pub struct PartsManager {
    parts: Vec<PartsItem>,
    parts_motions: Vec<PartsMotion>,
    allocation_pool: Vec<u8>,
    pub current_id: u8,
}

impl PartsManager {
    /// The parts, in order.
    pub closed spec fn items(&self) -> Seq<PartsItemView> {
        self.parts@.map_values(|p: PartsItem| p@)
    }

    /// The motions, in order.
    pub closed spec fn motions(&self) -> Seq<PartsMotionView> {
        self.parts_motions@.map_values(|m: PartsMotion| m@)
    }

    /// The pool of motion ids.
    pub closed spec fn pool(&self) -> Seq<u8> {
        self.allocation_pool@
    }

    /// The value of `current_id`.
    pub closed spec fn current(&self) -> u8 {
        self.current_id
    }

    /// There are 64 parts, 8 motions and 8 pool slots.
    pub open spec fn wf(&self) -> bool {
        &&& self.items().len() == 64
        &&& self.motions().len() == 8
        &&& self.pool().len() == 8
    }

    /// A manager as made: fresh parts and motions, the pool holding the ids
    /// 0 to 7 in order, and `current_id` zero.
    pub open spec fn is_fresh(&self) -> bool {
        &&& self.wf()
        &&& forall|i: int| 0 <= i < 64 ==> #[trigger] self.items()[i] == initial_item()
        &&& forall|i: int| 0 <= i < 8 ==> #[trigger] self.motions()[i] == initial_motion()
        &&& forall|i: int| 0 <= i < 8 ==> #[trigger] self.pool()[i] == i
        &&& self.current() == 0
    }

    pub fn new() -> (m: Self)
        ensures
            m.is_fresh(),
    {
        let mut allocation_pool: Vec<u8> = Vec::new();
        let mut k: u8 = 0;
        while k < 8
            invariant
                k <= 8,
                allocation_pool@.len() == k,
                forall|i: int| 0 <= i < k ==> #[trigger] allocation_pool@[i] == i,
            decreases 8 - k,
        {
            allocation_pool.push(k);
            k = k + 1;
        }
        let mut parts: Vec<PartsItem> = Vec::new();
        let mut n: usize = 0;
        while n < 64
            invariant
                n <= 64,
                parts@.len() == n,
                forall|i: int| 0 <= i < n ==> #[trigger] parts@[i]@ == initial_item(),
            decreases 64 - n,
        {
            parts.push(PartsItem::new());
            n = n + 1;
        }
        let mut parts_motions: Vec<PartsMotion> = Vec::new();
        let mut n: usize = 0;
        while n < 8
            invariant
                n <= 8,
                parts_motions@.len() == n,
                forall|i: int| 0 <= i < n ==> #[trigger] parts_motions@[i]@ == initial_motion(),
            decreases 8 - n,
        {
            parts_motions.push(PartsMotion::new());
            n = n + 1;
        }
        Self { parts, parts_motions, allocation_pool, current_id: 0 }
    }

    /// The id last handed out by `next_free_id`, as `current_id` holds it.
    pub fn get_current_id(&self) -> (c: u8)
        ensures
            c == self.current(),
    {
        self.current_id
    }

    /// Sets `current_id`, as a write to the field does.
    pub fn set_current_id(&mut self, current_id: u8)
        ensures
            final(self).current() == current_id,
            final(self).items() == old(self).items(),
            final(self).motions() == old(self).motions(),
            final(self).pool() == old(self).pool(),
    {
        self.current_id = current_id;
    }

    /// Loading parts from a file is not done: nothing changes.
    pub fn load_parts(&mut self, id: u16, file_name: &str)
        ensures
            *final(self) == *old(self),
    {
    }

    /// Tints part `id` with the colour (`r`, `g`, `b`).
    pub fn set_rgb(&mut self, id: u16, r: u8, g: u8, b: u8)
        requires
            old(self).wf(),
            id < 64,
        ensures
            final(self).items() == old(self).items().update(
                id as int,
                PartsItemView { r_value: r, g_value: g, b_value: b, ..old(self).items()[id as int] },
            ),
            final(self).motions() == old(self).motions(),
            final(self).pool() == old(self).pool(),
            final(self).current() == old(self).current(),
    {
        self.parts[id as usize].r_value = r;
        self.parts[id as usize].g_value = g;
        self.parts[id as usize].b_value = b;
    }

    /// Stops the first running motion of part `parts_id`, lowers
    /// `current_id` by one (not below zero), puts the stopped motion's id (its
    /// low 8 bits) in the pool at `current_id` and returns `current_id`.
    /// Returns `None`, and changes nothing, when no running motion belongs to
    /// that part.
    pub fn next_free_id(&mut self, parts_id: u8) -> (r: Option<u8>)
        requires
            old(self).wf(),
            first_match(old(self).motions(), parts_id) < 8 ==> lowered(old(self).current()) < 8,
        ensures
            final(self).wf(),
            final(self).items() == old(self).items(),
            forall|j: int|
                0 <= j < 8 && (#[trigger] final(self).motions()[j]).running ==> old(
                    self,
                ).motions()[j].running,
            r is None <==> forall|j: int|
                0 <= j < 8 ==> !motion_matches(#[trigger] old(self).motions()[j], parts_id),
            ({
                let k = first_match(old(self).motions(), parts_id);
                let c = lowered(old(self).current());
                if k < 8 {
                    &&& r == Some(c)
                    &&& final(self).motions() == old(self).motions().update(
                        k,
                        PartsMotionView { running: false, ..old(self).motions()[k] },
                    )
                    &&& final(self).pool() == old(self).pool().update(
                        c as int,
                        old(self).motions()[k].id as u8,
                    )
                    &&& final(self).current() == c
                } else {
                    &&& r is None
                    &&& final(self).motions() == old(self).motions()
                    &&& final(self).pool() == old(self).pool()
                    &&& final(self).current() == old(self).current()
                }
            }),
    {
        proof {
            lemma_first_match_from(self.motions(), parts_id, 0);
        }
        let mut i: usize = 0;
        while !self.parts_motions[i].running || self.parts_motions[i].parts_id != parts_id
            invariant
                i < 8,
                self.wf(),
                self == old(self),
                first_match(self.motions(), parts_id) == first_match_from(
                    self.motions(),
                    parts_id,
                    i as int,
                ),
                forall|j: int|
                    0 <= j < i ==> !motion_matches(#[trigger] self.motions()[j], parts_id),
            decreases 8 - i,
        {
            assert(!motion_matches(self.motions()[i as int], parts_id));
            assert(first_match_from(self.motions(), parts_id, i as int) == first_match_from(
                self.motions(),
                parts_id,
                i + 1,
            ));
            i += 1;
            if i >= 8 {
                return None;
            }
        }
        assert(motion_matches(self.motions()[i as int], parts_id));
        self.parts_motions[i].running = false;
        if self.current_id > 0 {
            self.current_id -= 1;
        }
        let motion_id = self.parts_motions[i].get_id() as u8;
        self.allocation_pool[self.current_id as usize] = motion_id;
        Some(self.current_id)
    }
}

impl Default for PartsManager {
    fn default() -> (m: Self)
        ensures
            m.is_fresh(),
    {
        Self::new()
    }
}

/// Successive calls of `next_free_id` for one part stop motions further and
/// further down the table: after a call that stops a motion, the first
/// running motion of that part lies after the one stopped.
pub proof fn lemma_next_free_moves_on(ms: Seq<PartsMotionView>, parts_id: u8)
    requires
        first_match(ms, parts_id) < ms.len(),
    ensures
        ({
            let k = first_match(ms, parts_id);
            first_match(ms.update(k, PartsMotionView { running: false, ..ms[k] }), parts_id) > k
        }),
{
    let k = first_match(ms, parts_id);
    let ms2 = ms.update(k, PartsMotionView { running: false, ..ms[k] });
    lemma_first_match_from(ms, parts_id, 0);
    lemma_first_match_from(ms2, parts_id, 0);
    let k2 = first_match(ms2, parts_id);
    if k2 <= k {
        if k2 < k {
            assert(ms2[k2] == ms[k2]);
        }
        assert(!motion_matches(ms2[k], parts_id));
    }
}

/// No motion runs.
pub open spec fn all_stopped(ms: Seq<PartsMotionView>) -> bool {
    forall|i: int| 0 <= i < ms.len() ==> !(#[trigger] ms[i]).running
}

/// A manager as made runs no motion; `set_rgb`, `load_parts` and
/// `set_current_id` keep the motions, and `next_free_id` only stops them, so
/// no motion ever runs in a manager made by `new`.
pub proof fn lemma_fresh_runs_no_motion(pm: PartsManager)
    requires
        pm.is_fresh(),
    ensures
        all_stopped(pm.motions()),
{
    assert forall|i: int| 0 <= i < pm.motions().len() implies !(#[trigger] pm.motions()[i]).running by {
        assert(pm.motions()[i] == initial_motion());
    }
}

/// While no motion runs, `next_free_id` finds none for any part: it returns
/// `None` and changes nothing.
pub proof fn lemma_stopped_motions_find_none(ms: Seq<PartsMotionView>, parts_id: u8)
    requires
        all_stopped(ms),
    ensures
        first_match(ms, parts_id) == ms.len(),
{
    lemma_first_match_from(ms, parts_id, 0);
    if first_match(ms, parts_id) < ms.len() {
        assert(!ms[first_match(ms, parts_id)].running);
    }
}

} // verus!
