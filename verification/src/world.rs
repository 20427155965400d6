use vstd::prelude::*;

use std::collections::HashMap;
use std::collections::HashSet;

use crate::chunk::Chunk;

verus! {

broadcast use vstd::std_specs::hash::group_hash_axioms;

/// The packed map key of chunk coordinate (x, z): the two 32-bit halves of
/// one `u64`. Injective, so one key stands for exactly one coordinate.
pub open spec fn spec_key(x: i32, z: i32) -> u64 {
    ((x as u32 as u64) << 32) | (z as u32 as u64)
}

pub fn coord_key(x: i32, z: i32) -> (r: u64)
    ensures
        r == spec_key(x, z),
{
    ((x as u32 as u64) << 32) | (z as u32 as u64)
}

/// Distinct chunk coordinates pack to distinct keys.
pub proof fn lemma_key_injective(x1: i32, z1: i32, x2: i32, z2: i32)
    requires
        spec_key(x1, z1) == spec_key(x2, z2),
    ensures
        x1 == x2 && z1 == z2,
{
    assert(x1 == x2 && z1 == z2) by (bit_vector)
        requires
            ((x1 as u32 as u64) << 32) | (z1 as u32 as u64) == ((x2 as u32 as u64) << 32) | (
            z2 as u32 as u64),
    ;
}

/// Chunk coordinate (x, z) lies in the square box of the given Chebyshev
/// radius around (cx, cz).
pub open spec fn in_box(cx: i32, cz: i32, radius: i32, x: i32, z: i32) -> bool {
    cx - radius <= x <= cx + radius && cz - radius <= z <= cz + radius
}

/// The packed keys of a list of chunk coordinates.
pub open spec fn keys_of(s: Seq<(i32, i32)>) -> Set<u64> {
    Set::new(
        |k: u64| exists|i: int| 0 <= i < s.len() && spec_key((#[trigger] s[i]).0, s[i].1) == k,
    )
}

/// The streaming manager's state: the per-chunk-coordinate lifecycle.
///
/// A coordinate is *pending* from the moment a generation task is handed
/// out until its finished chunk comes back, *queued* while the finished
/// chunk awaits its one-per-frame promotion, and *active* afterwards. The
/// spawn cell is written at most once, by the completion of the origin
/// chunk.
///
/// The thread pool, the locks around the queue and the GPU uploads live
/// with the caller; this state machine decides, and its transitions are
/// meant to be driven one at a time.
pub struct World {
    pub active_chunks: HashMap<u64, Chunk>,
    pub pending: HashSet<u64>,
    pub chunk_queue: Vec<Chunk>,
    pub player_spawn: Option<(i32, i32, i32)>,
}

impl World {
    /// The coordinates whose chunks are active, as packed keys.
    pub open spec fn active_set(self) -> Set<u64> {
        self.active_chunks@.dom()
    }

    /// The coordinates currently being generated, as packed keys.
    pub open spec fn pending_set(self) -> Set<u64> {
        self.pending@
    }

    /// The keys of the completed chunks awaiting promotion, oldest first.
    pub open spec fn queued_keys(self) -> Seq<u64> {
        self.chunk_queue@.map_values(
            |c: Chunk| spec_key(c.index_position.0, c.index_position.1),
        )
    }

    /// The coordinates whose chunks await promotion, as packed keys.
    pub open spec fn queued_set(self) -> Set<u64> {
        Set::new(|k: u64| self.queued_keys().contains(k))
    }

    /// Every coordinate that has left the unrequested state: requested,
    /// completed or active. A tracked coordinate is never requested again.
    pub open spec fn tracked_set(self) -> Set<u64> {
        self.active_set() + self.pending_set() + self.queued_set()
    }

    /// The lifecycle states partition the tracked coordinates: no
    /// coordinate is in two states at once, the queue holds no coordinate
    /// twice, and every stored chunk sits under its own coordinate's key.
    pub open spec fn wf(self) -> bool {
        &&& self.active_set().disjoint(self.pending_set())
        &&& self.active_set().disjoint(self.queued_set())
        &&& self.pending_set().disjoint(self.queued_set())
        &&& self.queued_keys().no_duplicates()
        &&& forall|k: u64|
            self.active_chunks@.contains_key(k) ==> spec_key(
                (#[trigger] self.active_chunks@[k]).index_position.0,
                self.active_chunks@[k].index_position.1,
            ) == k
    }

    /// An empty manager: nothing requested, nothing active, no spawn yet.
    pub fn new() -> (r: World)
        ensures
            r.wf(),
            r.active_set() == Set::<u64>::empty(),
            r.pending_set() == Set::<u64>::empty(),
            r.chunk_queue@.len() == 0,
            r.player_spawn.is_none(),
    {
        let r = World {
            active_chunks: HashMap::new(),
            pending: HashSet::new(),
            chunk_queue: Vec::new(),
            player_spawn: None,
        };
        proof {
            assert(r.queued_keys() =~= Seq::<u64>::empty());
            assert(r.active_set() =~= Set::<u64>::empty());
            assert(r.pending_set() =~= Set::<u64>::empty());
            assert(r.queued_set() =~= Set::<u64>::empty());
        }
        r
    }

    /// The observer's spawn position, once the origin chunk has reported
    /// its surface height; `None` until then.
    pub fn get_player_spawn(&self) -> (r: Option<(i32, i32, i32)>)
        ensures
            r == self.player_spawn,
    {
        self.player_spawn
    }

    /// The active chunk at coordinate (x, z), if that coordinate has been
    /// promoted.
    pub fn active_chunk(&self, x: i32, z: i32) -> (r: Option<&Chunk>)
        requires
            self.wf(),
        ensures
            match r {
                Some(c) => self.active_chunks@.contains_key(spec_key(x, z)) && *c
                    == self.active_chunks@[spec_key(x, z)],
                None => !self.active_chunks@.contains_key(spec_key(x, z)),
            },
    {
        let k = coord_key(x, z);
        self.active_chunks.get(&k)
    }

    /// Whether some completed chunk in the queue has the key `k`.
    fn queued_contains(&self, k: u64) -> (r: bool)
        ensures
            r == self.queued_set().contains(k),
    {
        let mut i: usize = 0;
        while i < self.chunk_queue.len()
            invariant
                i <= self.chunk_queue@.len(),
                forall|j: int| 0 <= j < i ==> self.queued_keys()[j] != k,
            decreases self.chunk_queue@.len() - i,
        {
            let idx = self.chunk_queue[i].index();
            if coord_key(idx.0, idx.1) == k {
                proof {
                    assert(self.queued_keys()[i as int] == k);
                }
                return true;
            }
            i = i + 1;
        }
        proof {
            assert(!self.queued_keys().contains(k));
        }
        false
    }

    /// Requests every coordinate of the box around (cx, cz) that is still
    /// unrequested: each such coordinate becomes pending and is returned so
    /// the caller can hand one generation task per coordinate to its
    /// workers. Coordinates already pending, queued or active are left
    /// alone, which is what makes repeated scans idempotent.
    #[verifier::rlimit(60)]
    fn request_box(&mut self, cx: i32, cz: i32, radius: i32) -> (r: Vec<(i32, i32)>)
        requires
            old(self).wf(),
            0 <= radius <= 64,
            -134217728 <= cx <= 134217727,
            -134217728 <= cz <= 134217727,
        ensures
            final(self).wf(),
            forall|i: int|
                0 <= i < r@.len() ==> in_box(cx, cz, radius, (#[trigger] r@[i]).0, r@[i].1) && !old(self).tracked_set().contains(spec_key(r@[i].0, r@[i].1)),
            forall|x: i32, z: i32|
                in_box(cx, cz, radius, x, z) && !old(self).tracked_set().contains(
                    #[trigger] spec_key(x, z),
                ) ==> r@.contains((x, z)),
            r@.no_duplicates(),
            final(self).pending_set() == old(self).pending_set() + keys_of(r@),
            final(self).tracked_set() == old(self).tracked_set() + keys_of(r@),
            final(self).active_chunks@ == old(self).active_chunks@,
            final(self).chunk_queue@ == old(self).chunk_queue@,
            final(self).player_spawn == old(self).player_spawn,
    {
        let ghost w0 = *old(self);
        let x0: i32 = cx - radius;
        let x1: i32 = cx + radius;
        let z0: i32 = cz - radius;
        let z1: i32 = cz + radius;
        let mut out: Vec<(i32, i32)> = Vec::new();
        let mut x: i32 = x0;
        while x <= x1
            invariant
                x0 <= x <= x1 + 1,
                0 <= radius <= 64,
                -134217728 <= cx <= 134217727,
                -134217728 <= cz <= 134217727,
                x0 == cx - radius && x1 == cx + radius && z0 == cz - radius && z1 == cz + radius,
                self.wf(),
                self.active_chunks@ == w0.active_chunks@,
                self.chunk_queue@ == w0.chunk_queue@,
                self.player_spawn == w0.player_spawn,
                forall|i: int|
                    0 <= i < out@.len() ==> in_box(cx, cz, radius, (#[trigger] out@[i]).0, out@[i].1)
                        && !w0.tracked_set().contains(spec_key(out@[i].0, out@[i].1))
                        && out@[i].0 < x,
                forall|xx: i32, zz: i32|
                    in_box(cx, cz, radius, xx, zz) && xx < x && !w0.tracked_set().contains(
                        #[trigger] spec_key(xx, zz),
                    ) ==> out@.contains((xx, zz)),
                out@.no_duplicates(),
                self.pending_set() == w0.pending_set() + keys_of(out@),
            decreases x1 + 1 - x,
        {
            let mut z: i32 = z0;
            while z <= z1
                invariant
                    x0 <= x <= x1,
                    z0 <= z <= z1 + 1,
                    0 <= radius <= 64,
                    -134217728 <= cx <= 134217727,
                    -134217728 <= cz <= 134217727,
                    x0 == cx - radius && x1 == cx + radius && z0 == cz - radius && z1 == cz
                        + radius,
                    self.wf(),
                    self.active_chunks@ == w0.active_chunks@,
                    self.chunk_queue@ == w0.chunk_queue@,
                    self.player_spawn == w0.player_spawn,
                    forall|i: int|
                        0 <= i < out@.len() ==> in_box(
                            cx,
                            cz,
                            radius,
                            (#[trigger] out@[i]).0,
                            out@[i].1,
                        ) && !w0.tracked_set().contains(spec_key(out@[i].0, out@[i].1)) && (
                        out@[i].0 < x || (out@[i].0 == x && out@[i].1 < z)),
                    forall|xx: i32, zz: i32|
                        in_box(cx, cz, radius, xx, zz) && (xx < x || (xx == x && zz < z))
                            && !w0.tracked_set().contains(#[trigger] spec_key(xx, zz))
                            ==> out@.contains((xx, zz)),
                    out@.no_duplicates(),
                    self.pending_set() == w0.pending_set() + keys_of(out@),
                decreases z1 + 1 - z,
            {
                proof {
                    if self.tracked_set().contains(spec_key(x, z)) != w0.tracked_set().contains(
                        spec_key(x, z),
                    ) {
                        assert(keys_of(out@).contains(spec_key(x, z)));
                        let i = choose|i: int|
                            0 <= i < out@.len() && spec_key(
                                (#[trigger] out@[i]).0,
                                out@[i].1,
                            ) == spec_key(x, z);
                        lemma_key_injective(out@[i].0, out@[i].1, x, z);
                    }
                }
                if !self.is_tracked(x, z) {
                    let ghost out0 = out@;
                    out.push((x, z));
                    let k = coord_key(x, z);
                    self.pending.insert(k);
                    proof {
                        assert(keys_of(out@) =~= keys_of(out0).insert(spec_key(x, z))) by {
                            assert forall|kk: u64| #[trigger]
                                keys_of(out@).contains(kk) implies keys_of(out0).insert(
                                spec_key(x, z),
                            ).contains(kk) by {
                                let i = choose|i: int|
                                    0 <= i < out@.len() && spec_key(
                                        (#[trigger] out@[i]).0,
                                        out@[i].1,
                                    ) == kk;
                                if i < out0.len() {
                                    assert(keys_of(out0).contains(kk));
                                }
                            }
                            assert forall|kk: u64| keys_of(out0).insert(spec_key(x, z)).contains(
                                kk,
                            ) implies #[trigger] keys_of(out@).contains(kk) by {
                                if keys_of(out0).contains(kk) {
                                    let i = choose|i: int|
                                        0 <= i < out0.len() && spec_key(
                                            (#[trigger] out0[i]).0,
                                            out0[i].1,
                                        ) == kk;
                                    assert(spec_key(out@[i].0, out@[i].1) == kk);
                                } else {
                                    assert(spec_key(
                                        out@[out@.len() - 1].0,
                                        out@[out@.len() - 1].1,
                                    ) == spec_key(x, z));
                                }
                            }
                        }
                        assert(self.pending_set() =~= w0.pending_set() + keys_of(out@));
                        assert(self.queued_set() =~= w0.queued_set());
                        assert forall|p: (i32, i32)| out0.contains(p) implies p != (x, z) by {
                            let i = choose|i: int| 0 <= i < out0.len() && out0[i] == p;
                            assert(out0[i].0 < x || (out0[i].0 == x && out0[i].1 < z));
                        }
                        assert(out@.no_duplicates());
                        assert(out@.contains((x, z))) by {
                            assert(out@[out@.len() - 1] == (x, z));
                        }
                        assert forall|p: (i32, i32)| out0.contains(p) implies out@.contains(
                            p,
                        ) by {
                            let i = choose|i: int| 0 <= i < out0.len() && out0[i] == p;
                            assert(out@[i] == p);
                        }
                        assert(self.wf());
                    }
                } else {
                    proof {
                        assert(self.queued_set() =~= w0.queued_set());
                    }
                }
                z = z + 1;
            }
            x = x + 1;
        }
        proof {
            assert(self.tracked_set() =~= w0.tracked_set() + keys_of(out@)) by {
                assert(self.queued_set() =~= w0.queued_set());
            }
        }
        out
    }

    /// Pre-loads the area around the world origin before the observer is
    /// released: requests every coordinate of the radius-2 box around
    /// (0, 0), so the spawn chunk at the origin is among the requests.
    pub fn initialize_chunks(&mut self) -> (r: Vec<(i32, i32)>)
        requires
            old(self).wf(),
        ensures
            final(self).wf(),
            forall|i: int|
                0 <= i < r@.len() ==> in_box(0, 0, 2, (#[trigger] r@[i]).0, r@[i].1) && !old(self).tracked_set().contains(spec_key(r@[i].0, r@[i].1)),
            forall|x: i32, z: i32|
                in_box(0, 0, 2, x, z) && !old(self).tracked_set().contains(
                    #[trigger] spec_key(x, z),
                ) ==> r@.contains((x, z)),
            r@.no_duplicates(),
            final(self).pending_set() == old(self).pending_set() + keys_of(r@),
            final(self).tracked_set() == old(self).tracked_set() + keys_of(r@),
            final(self).active_chunks@ == old(self).active_chunks@,
            final(self).chunk_queue@ == old(self).chunk_queue@,
            final(self).player_spawn == old(self).player_spawn,
    {
        self.request_box(0, 0, 2)
    }

    /// One per-frame scan: requests every still-unrequested coordinate
    /// within Chebyshev distance `RENDER_DISTANCE` of the chunk that holds
    /// the observer's world position (x, z), floor-divided by `CHUNK_SIZE`.
    pub fn build_chunks(&mut self, position: (i32, i32)) -> (r: Vec<(i32, i32)>)
        requires
            old(self).wf(),
        ensures
            final(self).wf(),
            forall|i: int|
                0 <= i < r@.len() ==> in_box(
                    crate::spec_chunk_coord(position.0 as int) as i32,
                    crate::spec_chunk_coord(position.1 as int) as i32,
                    crate::RENDER_DISTANCE,
                    (#[trigger] r@[i]).0,
                    r@[i].1,
                ) && !old(self).tracked_set().contains(spec_key(r@[i].0, r@[i].1)),
            forall|x: i32, z: i32|
                in_box(
                    crate::spec_chunk_coord(position.0 as int) as i32,
                    crate::spec_chunk_coord(position.1 as int) as i32,
                    crate::RENDER_DISTANCE,
                    x,
                    z,
                ) && !old(self).tracked_set().contains(#[trigger] spec_key(x, z))
                    ==> r@.contains((x, z)),
            r@.no_duplicates(),
            final(self).pending_set() == old(self).pending_set() + keys_of(r@),
            final(self).tracked_set() == old(self).tracked_set() + keys_of(r@),
            final(self).active_chunks@ == old(self).active_chunks@,
            final(self).chunk_queue@ == old(self).chunk_queue@,
            final(self).player_spawn == old(self).player_spawn,
    {
        let cx = crate::chunk_coord(position.0);
        let cz = crate::chunk_coord(position.1);
        self.request_box(cx, cz, crate::RENDER_DISTANCE)
    }

    /// A worker hands back the finished chunk for a pending coordinate:
    /// the coordinate leaves the in-flight set and the chunk joins the
    /// completion queue. When the chunk is the origin chunk and the spawn
    /// cell is still unwritten, the cell is set — once and for all — to one
    /// block above the column's topmost non-air block.
    pub fn complete_chunk(&mut self, chunk: Chunk)
        requires
            old(self).wf(),
            old(self).pending_set().contains(
                spec_key(chunk.index_position.0, chunk.index_position.1),
            ),
            chunk.block_map.wf(),
        ensures
            final(self).wf(),
            final(self).pending_set() == old(self).pending_set().remove(
                spec_key(chunk.index_position.0, chunk.index_position.1),
            ),
            final(self).chunk_queue@ == old(self).chunk_queue@.push(chunk),
            final(self).active_chunks@ == old(self).active_chunks@,
            final(self).tracked_set() == old(self).tracked_set(),
            old(self).player_spawn.is_some() ==> final(self).player_spawn == old(self).player_spawn,
            old(self).player_spawn.is_none() && chunk.index_position == (0i32, 0i32) ==> final(self).player_spawn == Some(
                (
                    0i32,
                    (crate::chunk::spec_highest_block(chunk.block_map, 0, 0) + 1) as i32,
                    0i32,
                ),
            ),
            old(self).player_spawn.is_none() && chunk.index_position != (0i32, 0i32) ==> final(self).player_spawn.is_none(),
    {
        let ghost w0 = *old(self);
        let idx = chunk.index();
        let k = coord_key(idx.0, idx.1);
        if idx.0 == 0 && idx.1 == 0 && self.player_spawn.is_none() {
            let spawn_y = chunk.get_highest_block((0, 0));
            self.player_spawn = Some((0, spawn_y + 1, 0));
        }
        self.pending.remove(&k);
        self.chunk_queue.push(chunk);
        proof {
            assert(self.queued_keys() =~= w0.queued_keys().push(k));
            assert(self.queued_set() =~= w0.queued_set().insert(k)) by {
                assert forall|kk: u64| #[trigger]
                    self.queued_set().contains(kk) implies w0.queued_set().insert(k).contains(
                    kk,
                ) by {
                    let i = choose|i: int|
                        0 <= i < self.queued_keys().len() && self.queued_keys()[i] == kk;
                    if i < w0.queued_keys().len() {
                        assert(w0.queued_keys()[i] == kk);
                    }
                }
                assert forall|kk: u64| w0.queued_set().insert(k).contains(kk) implies #[trigger]
                    self.queued_set().contains(kk) by {
                    if kk == k {
                        assert(self.queued_keys()[self.queued_keys().len() - 1] == k);
                    } else {
                        let i = choose|i: int|
                            0 <= i < w0.queued_keys().len() && w0.queued_keys()[i] == kk;
                        assert(self.queued_keys()[i] == kk);
                    }
                }
            }
            assert(self.pending_set() =~= w0.pending_set().remove(k));
            assert(self.queued_keys().no_duplicates()) by {
                assert(!w0.queued_set().contains(k));
                assert(!w0.queued_keys().contains(k));
            }
            assert(self.wf());
            assert(self.tracked_set() =~= w0.tracked_set());
        }
    }

    /// The one-per-frame promotion: pops the oldest completed chunk, if
    /// any, into the active map and reports its coordinate so the caller
    /// can upload the chunk's mesh. At most one chunk moves per call,
    /// however deep the queue is.
    pub fn take_chunk_from_queue(&mut self) -> (r: Option<(i32, i32)>)
        requires
            old(self).wf(),
        ensures
            final(self).wf(),
            old(self).chunk_queue@.len() == 0 ==> r.is_none() && *final(self) == *old(self),
            old(self).chunk_queue@.len() > 0 ==> {
                let c = old(self).chunk_queue@[0];
                &&& r == Some(c.index_position)
                &&& final(self).chunk_queue@ == old(self).chunk_queue@.subrange(
                    1,
                    old(self).chunk_queue@.len() as int,
                )
                &&& final(self).active_chunks@ == old(self).active_chunks@.insert(
                    spec_key(c.index_position.0, c.index_position.1),
                    c,
                )
                &&& final(self).pending_set() == old(self).pending_set()
                &&& final(self).player_spawn == old(self).player_spawn
                &&& final(self).tracked_set() == old(self).tracked_set()
            },
    {
        let ghost w0 = *old(self);
        if self.chunk_queue.len() == 0 {
            return None;
        }
        let chunk = self.chunk_queue.remove(0);
        let idx = chunk.index();
        let k = coord_key(idx.0, idx.1);
        self.active_chunks.insert(k, chunk);
        proof {
            assert(w0.queued_keys()[0] == k);
            assert(w0.queued_set().contains(k));
            assert(self.queued_keys() =~= w0.queued_keys().subrange(
                1,
                w0.queued_keys().len() as int,
            ));
            assert forall|kk: u64| #[trigger]
                self.queued_set().contains(kk) implies w0.queued_set().contains(kk) by {
                let i = choose|i: int| 0 <= i < self.queued_keys().len() && self.queued_keys()[i]
                    == kk;
                assert(w0.queued_keys()[i + 1] == kk);
            }
            assert(!self.queued_set().contains(k)) by {
                if self.queued_set().contains(k) {
                    let i = choose|i: int|
                        0 <= i < self.queued_keys().len() && self.queued_keys()[i] == k;
                    assert(w0.queued_keys()[i + 1] == k);
                    assert(w0.queued_keys()[0] == k);
                }
            }
            assert(self.wf());
            assert(self.tracked_set() =~= w0.tracked_set()) by {
                assert forall|kk: u64| w0.tracked_set().contains(kk) implies #[trigger]
                    self.tracked_set().contains(kk) by {
                    if w0.queued_set().contains(kk) {
                        let i = choose|i: int|
                            0 <= i < w0.queued_keys().len() && w0.queued_keys()[i] == kk;
                        if i == 0 {
                            assert(self.active_set().contains(kk));
                        } else {
                            assert(self.queued_keys()[i - 1] == kk);
                        }
                    }
                }
            }
        }
        Some(idx)
    }

    /// Whether coordinate (x, z) is currently out for generation. A
    /// finished chunk may be handed back only while its coordinate is
    /// pending.
    pub fn is_pending(&self, x: i32, z: i32) -> (r: bool)
        ensures
            r == self.pending_set().contains(spec_key(x, z)),
    {
        let k = coord_key(x, z);
        self.pending.contains(&k)
    }

    /// Whether chunk coordinate (x, z) has left the unrequested state.
    fn is_tracked(&self, x: i32, z: i32) -> (r: bool)
        requires
            self.wf(),
        ensures
            r == self.tracked_set().contains(spec_key(x, z)),
    {
        let k = coord_key(x, z);
        if self.active_chunks.contains_key(&k) {
            return true;
        }
        if self.pending.contains(&k) {
            return true;
        }
        self.queued_contains(k)
    }
}

/// One manager step, seen through which coordinates are tracked: a
/// per-frame scan requests the still-unrequested part of its box, while a
/// completion or a promotion only moves a coordinate between states.
pub enum StreamEvent {
    Scan { cx: i32, cz: i32, radius: i32 },
    Complete,
    Promote,
}

/// The packed keys of every coordinate of a scan box.
pub open spec fn box_keys(cx: i32, cz: i32, radius: i32) -> Set<u64> {
    Set::new(
        |k: u64|
            exists|x: i32, z: i32|
                in_box(cx, cz, radius, x, z) && (#[trigger] spec_key(x, z)) == k,
    )
}

/// The tracked set after one event: scans add their box, completion and
/// promotion leave the tracked set as it is (and nothing ever removes a
/// coordinate — this engine has no eviction).
pub open spec fn step_tracked(t: Set<u64>, e: StreamEvent) -> Set<u64> {
    match e {
        StreamEvent::Scan { cx, cz, radius } => t + box_keys(cx, cz, radius),
        StreamEvent::Complete => t,
        StreamEvent::Promote => t,
    }
}

/// Whether the event `e`, fired while `t` is tracked, submits a generation
/// request for key `k`: only a scan does, and only for an untracked
/// coordinate of its box.
pub open spec fn scan_emits(t: Set<u64>, e: StreamEvent, k: u64) -> bool {
    match e {
        StreamEvent::Scan { cx, cz, radius } => box_keys(cx, cz, radius).contains(k)
            && !t.contains(k),
        StreamEvent::Complete => false,
        StreamEvent::Promote => false,
    }
}

/// How many events of a run submit a generation request for `k`, starting
/// from tracked set `t`.
pub open spec fn emit_count(t: Set<u64>, events: Seq<StreamEvent>, k: u64) -> nat
    decreases events.len(),
{
    if events.len() == 0 {
        0
    } else {
        (if scan_emits(t, events[0], k) {
            1nat
        } else {
            0nat
        }) + emit_count(step_tracked(t, events[0]), events.drop_first(), k)
    }
}

/// A tracked coordinate is never requested again, however many frames the
/// manager runs.
pub proof fn lemma_tracked_never_emitted(t: Set<u64>, events: Seq<StreamEvent>, k: u64)
    requires
        t.contains(k),
    ensures
        emit_count(t, events, k) == 0,
    decreases events.len(),
{
    if events.len() > 0 {
        lemma_tracked_never_emitted(step_tracked(t, events[0]), events.drop_first(), k);
    }
}

/// Over any run of the manager — any interleaving of scans, completions
/// and promotions, from any starting state — each chunk coordinate is
/// submitted for generation at most once: the scan that requests it makes
/// it pending at once, and every later scan skips tracked coordinates.
pub proof fn lemma_request_at_most_once(t: Set<u64>, events: Seq<StreamEvent>, k: u64)
    ensures
        emit_count(t, events, k) <= 1,
    decreases events.len(),
{
    if events.len() > 0 {
        if scan_emits(t, events[0], k) {
            lemma_tracked_never_emitted(step_tracked(t, events[0]), events.drop_first(), k);
        } else {
            lemma_request_at_most_once(step_tracked(t, events[0]), events.drop_first(), k);
        }
    }
}

/// What a scan returns is exactly what the model's scan event emits, and
/// the tracked set moves exactly as the model says: ties the contract of
/// `build_chunks` and `initialize_chunks` to the run-level model above.
pub proof fn lemma_scan_matches_model(
    pre: Set<u64>,
    emitted: Seq<(i32, i32)>,
    cx: i32,
    cz: i32,
    radius: i32,
)
    requires
        forall|i: int|
            0 <= i < emitted.len() ==> in_box(cx, cz, radius, (#[trigger] emitted[i]).0, emitted[i].1)
                && !pre.contains(spec_key(emitted[i].0, emitted[i].1)),
        forall|x: i32, z: i32|
            in_box(cx, cz, radius, x, z) && !pre.contains(#[trigger] spec_key(x, z))
                ==> emitted.contains((x, z)),
    ensures
        pre + keys_of(emitted) == step_tracked(
            pre,
            StreamEvent::Scan { cx, cz, radius },
        ),
        forall|k: u64|
            keys_of(emitted).contains(k) <==> scan_emits(
                pre,
                StreamEvent::Scan { cx, cz, radius },
                k,
            ),
{
    assert forall|k: u64|
        keys_of(emitted).contains(k) <==> scan_emits(
            pre,
            StreamEvent::Scan { cx, cz, radius },
            k,
        ) by {
        if keys_of(emitted).contains(k) {
            let i = choose|i: int|
                0 <= i < emitted.len() && spec_key((#[trigger] emitted[i]).0, emitted[i].1) == k;
            assert(spec_key(emitted[i].0, emitted[i].1) == k);
            assert(box_keys(cx, cz, radius).contains(k));
        }
        if scan_emits(pre, StreamEvent::Scan { cx, cz, radius }, k) {
            let (x, z): (i32, i32) = choose|x: i32, z: i32|
                in_box(cx, cz, radius, x, z) && (#[trigger] spec_key(x, z)) == k;
            assert(emitted.contains((x, z)));
            let i = choose|i: int| 0 <= i < emitted.len() && emitted[i] == (x, z);
            assert(spec_key(emitted[i].0, emitted[i].1) == k);
            assert(keys_of(emitted).contains(k));
        }
    }
    assert(pre + keys_of(emitted) =~= step_tracked(
        pre,
        StreamEvent::Scan { cx, cz, radius },
    )) by {
        assert forall|k: u64|
            step_tracked(pre, StreamEvent::Scan { cx, cz, radius }).contains(k)
                implies #[trigger] (pre + keys_of(emitted)).contains(k) by {
            if !pre.contains(k) {
                assert(box_keys(cx, cz, radius).contains(k));
                assert(scan_emits(pre, StreamEvent::Scan { cx, cz, radius }, k));
            }
        }
    }
}

/// The spawn cell is write-once: along any run whose steps never overwrite
/// a written cell — which every manager transition guarantees — the value
/// first observed written is the value forever after.
pub proof fn lemma_spawn_write_once(states: Seq<Option<(i32, i32, i32)>>, i: int, j: int)
    requires
        forall|m: int|
            0 <= m < states.len() - 1 ==> ((#[trigger] states[m]).is_some() ==> states[m + 1]
                == states[m]),
        0 <= i <= j < states.len(),
        states[i].is_some(),
    ensures
        states[j] == states[i],
    decreases j - i,
{
    if i < j {
        lemma_spawn_write_once(states, i, j - 1);
    }
}

} // verus!
