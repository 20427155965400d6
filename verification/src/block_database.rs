use vstd::prelude::*;

use crate::block::Block;
use crate::block_type::type_of_index;
use crate::block_type::BlockType;
use crate::block_type::TexCell;
use crate::block_type::BLOCK_TYPE_COUNT;
use crate::CHUNK_HEIGHT;

verus! {

/// What one metadata entry contributes to the rarity table at height `y`:
/// its block type repeated `100 - rarity` times when the entry is natural
/// and `y` lies in its height range, nothing otherwise.
pub open spec fn spec_height_entries(b: Block, y: int) -> Seq<BlockType> {
    if b.natural && b.min_height <= y < b.max_height {
        Seq::new((100 - b.rarity as int) as nat, |j: int| b.m_type)
    } else {
        Seq::empty()
    }
}

/// The rarity table row for height `y`: the concatenation, in metadata slot
/// order, of every entry's contribution at that height.
pub open spec fn spec_candidates(metas: Seq<Block>, y: int) -> Seq<BlockType>
    decreases metas.len(),
{
    if metas.len() == 0 {
        Seq::empty()
    } else {
        spec_candidates(metas.drop_last(), y) + spec_height_entries(metas.last(), y)
    }
}

/// The types of the natural entries, in metadata slot order.
pub open spec fn spec_natural_types(metas: Seq<Block>) -> Seq<BlockType>
    decreases metas.len(),
{
    if metas.len() == 0 {
        Seq::empty()
    } else {
        spec_natural_types(metas.drop_last()) + if metas.last().natural {
            seq![metas.last().m_type]
        } else {
            Seq::empty()
        }
    }
}

/// The types of the non-natural entries, in metadata slot order.
pub open spec fn spec_unnatural_types(metas: Seq<Block>) -> Seq<BlockType>
    decreases metas.len(),
{
    if metas.len() == 0 {
        Seq::empty()
    } else {
        spec_unnatural_types(metas.drop_last()) + if !metas.last().natural {
            seq![metas.last().m_type]
        } else {
            Seq::empty()
        }
    }
}

/// Some entry of `s` describes block type `t`.
pub open spec fn spec_covers(s: Seq<Block>, t: BlockType) -> bool {
    exists|i: int| 0 <= i < s.len() && (#[trigger] s[i]).m_type == t
}

/// A valid metadata load: every entry well formed, no block type described
/// twice, and every block type covered.
pub open spec fn spec_entries_ok(s: Seq<Block>) -> bool {
    &&& forall|i: int| 0 <= i < s.len() ==> (#[trigger] s[i]).wf()
    &&& forall|i: int, j: int| 0 <= i < j < s.len() ==> (#[trigger] s[i]).m_type != (
    #[trigger] s[j]).m_type
    &&& forall|t: BlockType| #[trigger] spec_covers(s, t)
}

/// The block-metadata registry: one validated entry per block type, plus
/// the precomputed rarity table with one weighted candidate row per height.
/// Built once at startup and read-only afterwards.
pub struct BlockDatabase {
    pub metas: Vec<Block>,
    pub height_table: Vec<Vec<BlockType>>,
}

impl BlockDatabase {
    /// Slot `i` holds the well-formed entry for the block type of index `i`,
    /// and every rarity-table row is exactly the candidates its height owes.
    pub open spec fn wf(self) -> bool {
        &&& self.metas@.len() == BLOCK_TYPE_COUNT
        &&& forall|i: int|
            0 <= i < BLOCK_TYPE_COUNT ==> (#[trigger] self.metas@[i]).wf()
                && self.metas@[i].m_type == type_of_index(i)
        &&& self.height_table@.len() == CHUNK_HEIGHT
        &&& forall|y: int|
            0 <= y < CHUNK_HEIGHT ==> (#[trigger] self.height_table@[y])@ == spec_candidates(
                self.metas@,
                y,
            )
    }

    /// The registry's entry for block type `t`.
    pub open spec fn spec_get(self, t: BlockType) -> Block {
        self.metas@[t.spec_index()]
    }

    /// The metadata entries in slot order, for specifications that speak of
    /// the rarity table or the natural/unnatural selections.
    pub open spec fn spec_metas(self) -> Seq<Block> {
        self.metas@
    }

    pub fn get_block(&self, id: BlockType) -> (r: &Block)
        requires
            self.wf(),
        ensures
            *r == self.spec_get(id),
            r.wf(),
            r.m_type == id,
    {
        proof {
            crate::block_type::lemma_type_index_inverse(id);
        }
        &self.metas[id.index()]
    }

    /// The entry for `id`, or the `Air` entry when there is no coordinate
    /// to look up — the defensive default for neighbors outside a volume.
    pub fn unwrap_block(&self, id: Option<&BlockType>) -> (r: &Block)
        requires
            self.wf(),
        ensures
            id.is_some() ==> *r == self.spec_get(*id.unwrap()),
            id.is_none() ==> *r == self.spec_get(BlockType::Air),
            r.wf(),
    {
        match id {
            Some(t) => self.get_block(*t),
            None => self.get_block(BlockType::Air),
        }
    }

    /// The precomputed weighted candidate row for one height.
    pub fn blocks_at_height(&self, height: i32) -> (r: &Vec<BlockType>)
        requires
            self.wf(),
            0 <= height < CHUNK_HEIGHT,
        ensures
            r@ == spec_candidates(self.spec_metas(), height as int),
    {
        &self.height_table[height as usize]
    }

    /// The block types available to natural placement, in slot order.
    pub fn natural_blocks(&self) -> (r: Vec<BlockType>)
        requires
            self.wf(),
        ensures
            r@ == spec_natural_types(self.spec_metas()),
    {
        let mut out: Vec<BlockType> = Vec::new();
        let mut i: usize = 0;
        while i < self.metas.len()
            invariant
                self.wf(),
                i <= self.metas@.len(),
                out@ == spec_natural_types(self.metas@.take(i as int)),
            decreases self.metas@.len() - i,
        {
            proof {
                assert(self.metas@.take(i + 1).drop_last() =~= self.metas@.take(i as int));
                assert(self.metas@.take(i + 1).last() == self.metas@[i as int]);
            }
            if self.metas[i].natural {
                out.push(self.metas[i].m_type);
            }
            i = i + 1;
        }
        proof {
            assert(self.metas@.take(self.metas@.len() as int) =~= self.metas@);
        }
        out
    }

    /// The block types closed to natural placement, in slot order.
    pub fn unnatural_blocks(&self) -> (r: Vec<BlockType>)
        requires
            self.wf(),
        ensures
            r@ == spec_unnatural_types(self.spec_metas()),
    {
        let mut out: Vec<BlockType> = Vec::new();
        let mut i: usize = 0;
        while i < self.metas.len()
            invariant
                self.wf(),
                i <= self.metas@.len(),
                out@ == spec_unnatural_types(self.metas@.take(i as int)),
            decreases self.metas@.len() - i,
        {
            proof {
                assert(self.metas@.take(i + 1).drop_last() =~= self.metas@.take(i as int));
                assert(self.metas@.take(i + 1).last() == self.metas@[i as int]);
            }
            if !self.metas[i].natural {
                out.push(self.metas[i].m_type);
            }
            i = i + 1;
        }
        proof {
            assert(self.metas@.take(self.metas@.len() as int) =~= self.metas@);
        }
        out
    }
}

impl BlockDatabase {
    /// Validates a metadata load and builds the registry together with its
    /// rarity table. `None` — a fatal configuration error — when an entry is
    /// malformed, a block type is described twice, or one has no entry.
    pub fn new(entries: Vec<Block>) -> (r: Option<BlockDatabase>)
        ensures
            r.is_some() <==> spec_entries_ok(entries@),
            r.is_some() ==> r.unwrap().wf(),
            r.is_some() ==> forall|i: int|
                0 <= i < entries@.len() ==> r.unwrap().spec_get(
                    (#[trigger] entries@[i]).m_type,
                ) == entries@[i],
    {
        let mut slots: Vec<Option<Block>> = Vec::new();
        let mut s: usize = 0;
        while s < BLOCK_TYPE_COUNT
            invariant
                s <= BLOCK_TYPE_COUNT,
                slots@.len() == s,
                forall|i: int| 0 <= i < s ==> (#[trigger] slots@[i]).is_none(),
            decreases BLOCK_TYPE_COUNT - s,
        {
            slots.push(None);
            s = s + 1;
        }
        let mut k: usize = 0;
        while k < entries.len()
            invariant
                k <= entries@.len(),
                slots@.len() == BLOCK_TYPE_COUNT,
                forall|j: int| 0 <= j < k ==> (#[trigger] entries@[j]).wf(),
                forall|j1: int, j2: int|
                    0 <= j1 < j2 < k ==> (#[trigger] entries@[j1]).m_type != (
                    #[trigger] entries@[j2]).m_type,
                forall|j: int|
                    0 <= j < k ==> slots@[(#[trigger] entries@[j]).m_type.spec_index()] == Some(
                        entries@[j],
                    ),
                forall|i: int|
                    0 <= i < BLOCK_TYPE_COUNT && (#[trigger] slots@[i]).is_some() ==> exists|j: int|
                        0 <= j < k && (#[trigger] entries@[j]).m_type.spec_index() == i,
            decreases entries@.len() - k,
        {
            if !check_meta(&entries[k]) {
                return None;
            }
            let idx = entries[k].m_type.index();
            if slots[idx].is_some() {
                proof {
                    let j = choose|j: int|
                        0 <= j < k && (#[trigger] entries@[j]).m_type.spec_index() == idx;
                    crate::block_type::lemma_type_index_inverse(entries@[j].m_type);
                    crate::block_type::lemma_type_index_inverse(entries@[k as int].m_type);
                    assert(entries@[j].m_type == entries@[k as int].m_type);
                }
                return None;
            }
            let e: Block = entries[k];
            slots.set(idx, Some(e));
            k = k + 1;
        }
        let ghost es = entries@;
        let mut metas: Vec<Block> = Vec::new();
        let mut i: usize = 0;
        while i < BLOCK_TYPE_COUNT
            invariant
                i <= BLOCK_TYPE_COUNT,
                slots@.len() == BLOCK_TYPE_COUNT,
                metas@.len() == i,
                es == entries@,
                forall|j: int| 0 <= j < es.len() ==> (#[trigger] es[j]).wf(),
                forall|j1: int, j2: int|
                    0 <= j1 < j2 < es.len() ==> (#[trigger] es[j1]).m_type != (
                    #[trigger] es[j2]).m_type,
                forall|j: int|
                    0 <= j < es.len() ==> slots@[(#[trigger] es[j]).m_type.spec_index()] == Some(
                        es[j],
                    ),
                forall|q: int|
                    0 <= q < BLOCK_TYPE_COUNT && (#[trigger] slots@[q]).is_some() ==> exists|j: int|
                        0 <= j < es.len() && (#[trigger] es[j]).m_type.spec_index() == q,
                forall|m: int| 0 <= m < i ==> slots@[m] == Some(#[trigger] metas@[m]),
            decreases BLOCK_TYPE_COUNT - i,
        {
            match &slots[i] {
                Some(b) => {
                    metas.push(*b);
                },
                None => {
                    proof {
                        let t = type_of_index(i as int);
                        assert forall|j: int| 0 <= j < es.len() implies (#[trigger] es[j]).m_type
                            != t by {
                            crate::block_type::lemma_type_index_inverse(es[j].m_type);
                        }
                        assert(!spec_covers(es, t));
                    }
                    return None;
                },
            }
            i = i + 1;
        }
        proof {
            assert forall|m: int| 0 <= m < BLOCK_TYPE_COUNT implies (#[trigger] metas@[m]).wf()
                && metas@[m].m_type == type_of_index(m) by {
                let j = choose|j: int|
                    0 <= j < es.len() && (#[trigger] es[j]).m_type.spec_index() == m;
                assert(slots@[m] == Some(es[j]));
                assert(metas@[m] == es[j]);
                crate::block_type::lemma_type_index_inverse(es[j].m_type);
            }
        }
        let mut table: Vec<Vec<BlockType>> = Vec::new();
        let mut y: i32 = 0;
        while y < CHUNK_HEIGHT
            invariant
                0 <= y <= CHUNK_HEIGHT,
                table@.len() == y,
                metas@.len() == BLOCK_TYPE_COUNT,
                forall|m: int| 0 <= m < BLOCK_TYPE_COUNT ==> (#[trigger] metas@[m]).wf(),
                forall|yy: int|
                    0 <= yy < y ==> (#[trigger] table@[yy])@ == spec_candidates(metas@, yy),
            decreases CHUNK_HEIGHT - y,
        {
            let mut row: Vec<BlockType> = Vec::new();
            let mut m: usize = 0;
            while m < metas.len()
                invariant
                    m <= BLOCK_TYPE_COUNT,
                    metas@.len() == BLOCK_TYPE_COUNT,
                    forall|q: int| 0 <= q < BLOCK_TYPE_COUNT ==> (#[trigger] metas@[q]).wf(),
                    row@ == spec_candidates(metas@.take(m as int), y as int),
                decreases BLOCK_TYPE_COUNT - m,
            {
                let b = metas[m];
                let ghost row0 = row@;
                if b.natural && b.min_height <= y && y < b.max_height {
                    let w: u32 = 100 - b.rarity;
                    let mut j: u32 = 0;
                    while j < w
                        invariant
                            j <= w,
                            w == 100 - b.rarity,
                            row@ == row0 + Seq::new(j as nat, |q: int| b.m_type),
                        decreases w - j,
                    {
                        proof {
                            assert(Seq::new((j + 1) as nat, |q: int| b.m_type) =~= Seq::new(
                                j as nat,
                                |q: int| b.m_type,
                            ).push(b.m_type));
                        }
                        row.push(b.m_type);
                        j = j + 1;
                    }
                    proof {
                        assert(row@ =~= row0 + spec_height_entries(b, y as int));
                    }
                } else {
                    proof {
                        assert(row@ =~= row0 + spec_height_entries(b, y as int));
                    }
                }
                proof {
                    assert(metas@.take(m + 1).drop_last() =~= metas@.take(m as int));
                    assert(metas@.take(m + 1).last() == b);
                    assert(row@ == spec_candidates(metas@.take(m + 1), y as int));
                }
                m = m + 1;
            }
            proof {
                assert(metas@.take(metas@.len() as int) =~= metas@);
            }
            table.push(row);
            y = y + 1;
        }
        let db = BlockDatabase { metas, height_table: table };
        proof {
            assert(db.wf());
            assert(spec_entries_ok(es)) by {
                assert forall|t: BlockType| #[trigger] spec_covers(es, t) by {
                    crate::block_type::lemma_type_index_inverse(t);
                    let q = t.spec_index();
                    assert(db.metas@[q].m_type == type_of_index(q));
                    let j = choose|j: int|
                        0 <= j < es.len() && (#[trigger] es[j]).m_type.spec_index() == q;
                    crate::block_type::lemma_type_index_inverse(es[j].m_type);
                    assert(es[j].m_type == t);
                }
            }
            assert forall|i2: int| 0 <= i2 < es.len() implies db.spec_get(
                (#[trigger] es[i2]).m_type,
            ) == es[i2] by {
                let q = es[i2].m_type.spec_index();
                crate::block_type::lemma_type_index_inverse(es[i2].m_type);
                assert(slots@[q] == Some(es[i2]));
                assert(db.metas@[q] == es[i2]);
            }
        }
        Some(db)
    }
}

fn tex_cell_checked(c: &Option<TexCell>) -> (r: bool)
    ensures
        r == crate::block::tex_cell_ok(*c),
{
    match c {
        Some(cell) => cell.x <= 10000 && cell.y <= 10000,
        None => true,
    }
}

/// The startup validation of one entry, deciding exactly `Block::wf`.
fn check_meta(b: &Block) -> (r: bool)
    ensures
        r == b.wf(),
{
    b.rarity <= 100 && 1 <= b.scale_x && b.scale_x <= 1000 && 1 <= b.scale_y && b.scale_y <= 1000
        && 0 <= b.min_height && b.min_height <= b.max_height && b.max_height <= CHUNK_HEIGHT
        && tex_cell_checked(&b.texture_top) && tex_cell_checked(&b.texture_bottom)
        && tex_cell_checked(&b.texture_front) && tex_cell_checked(&b.texture_back)
        && tex_cell_checked(&b.texture_left) && tex_cell_checked(&b.texture_right)
}

} // verus!
