use vstd::prelude::*;

use std::collections::HashMap;

use crate::block::Block;
use crate::chunk::{Chunk, ChunkPos};
use crate::chunk_generator::ChunkGenerator;

verus! {

broadcast use vstd::std_specs::hash::group_hash_axioms;

/// The key under which a chunk is stored: the three coordinates packed into one integer.
pub open spec fn chunk_key(c: ChunkPos) -> i128 {
    (c.x * 0x1_0000_0000_0000_0000 + c.y * 0x1_0000_0000 + c.z) as i128
}

/// Distinct chunks have distinct keys.
proof fn lemma_chunk_key_injective(a: ChunkPos, b: ChunkPos)
    requires
        chunk_key(a) == chunk_key(b),
    ensures
        a == b,
{
    let ra = a.y * 0x1_0000_0000 + a.z;
    let rb = b.y * 0x1_0000_0000 + b.z;
    assert(-0x8000_0000_8000_0000 <= ra <= 0x7fff_ffff_7fff_ffff) by (nonlinear_arith)
        requires
            ra == a.y * 0x1_0000_0000 + a.z,
            -0x8000_0000 <= a.y < 0x8000_0000,
            -0x8000_0000 <= a.z < 0x8000_0000,
    ;
    assert(-0x8000_0000_8000_0000 <= rb <= 0x7fff_ffff_7fff_ffff) by (nonlinear_arith)
        requires
            rb == b.y * 0x1_0000_0000 + b.z,
            -0x8000_0000 <= b.y < 0x8000_0000,
            -0x8000_0000 <= b.z < 0x8000_0000,
    ;
    let d = a.x - b.x;
    assert(d * 0x1_0000_0000_0000_0000 == rb - ra) by (nonlinear_arith)
        requires
            a.x * 0x1_0000_0000_0000_0000 + ra == b.x * 0x1_0000_0000_0000_0000 + rb,
            d == a.x - b.x,
    ;
    assert(d == 0) by (nonlinear_arith)
        requires
            d * 0x1_0000_0000_0000_0000 == rb - ra,
            -0x8000_0000_8000_0000 <= ra <= 0x7fff_ffff_7fff_ffff,
            -0x8000_0000_8000_0000 <= rb <= 0x7fff_ffff_7fff_ffff,
    ;
    assert(a.y == b.y) by (nonlinear_arith)
        requires
            a.y * 0x1_0000_0000 + a.z == b.y * 0x1_0000_0000 + b.z,
            -0x8000_0000 <= a.z < 0x8000_0000,
            -0x8000_0000 <= b.z < 0x8000_0000,
    ;
}

fn key_of(c: ChunkPos) -> (r: i128)
    ensures
        r == chunk_key(c),
{
    (c.x as i128) * 0x1_0000_0000_0000_0000 + (c.y as i128) * 0x1_0000_0000 + (c.z as i128)
}

/// The chunks after a lookup of `pos`: unchanged when it is stored, else with
/// the freshly `generated` blocks added under `pos`.
pub open spec fn after_lookup(
    m: Map<ChunkPos, Seq<Block>>,
    pos: ChunkPos,
    generated: Seq<Block>,
) -> Map<ChunkPos, Seq<Block>> {
    if m.contains_key(pos) {
        m
    } else {
        m.insert(pos, generated)
    }
}

/// How often the generator has run for `pos` after a lookup of `pos`, given
/// `count` runs before: once more when it was not stored.
pub open spec fn generations_after(m: Map<ChunkPos, Seq<Block>>, pos: ChunkPos, count: nat) -> nat {
    if m.contains_key(pos) {
        count
    } else {
        count + 1
    }
}

/// The chunks of a world, each generated once on first request and kept.
pub struct GameWorld<G: ChunkGenerator> {
    generator: G,
    chunks: HashMap<i128, Chunk>,
    /// How many times the generator ran for each coordinate.
    generations: Ghost<Map<ChunkPos, nat>>,
}

impl<G: ChunkGenerator> View for GameWorld<G> {
    type V = Map<ChunkPos, Seq<Block>>;

    /// The blocks of each chunk generated so far.
    closed spec fn view(&self) -> Map<ChunkPos, Seq<Block>> {
        Map::new(
            |c: ChunkPos| self.chunks@.contains_key(chunk_key(c)),
            |c: ChunkPos| self.chunks@[chunk_key(c)].blocks(),
        )
    }
}

impl<G: ChunkGenerator> GameWorld<G> {
    pub closed spec fn spec_generator(&self) -> G {
        self.generator
    }

    /// How many times the generator ran for the chunk at `c`.
    pub closed spec fn generation_count(&self, c: ChunkPos) -> nat {
        if self.generations@.contains_key(c) {
            self.generations@[c]
        } else {
            0
        }
    }

    /// Each stored chunk is well formed and stored under its own coordinate, and
    /// was generated exactly once; no other chunk was generated.
    pub closed spec fn wf(&self) -> bool {
        &&& forall|k: i128| #[trigger]
            self.chunks@.contains_key(k) ==> self.chunks@[k].wf() && chunk_key(
                self.chunks@[k].position(),
            ) == k
        &&& forall|c: ChunkPos| #[trigger]
            self.generation_count(c) == if self@.contains_key(c) {
                1nat
            } else {
                0nat
            }
    }

    pub fn new(generator: G) -> (r: GameWorld<G>)
        ensures
            r.wf(),
            r@ == Map::<ChunkPos, Seq<Block>>::empty(),
            r.spec_generator() == generator,
            forall|c: ChunkPos| #[trigger] r.generation_count(c) == 0,
    {
        let r = GameWorld { generator, chunks: HashMap::new(), generations: Ghost(Map::empty()) };
        assert(r@ =~= Map::<ChunkPos, Seq<Block>>::empty());
        r
    }

    /// The generator that fills new chunks.
    pub fn generator(&self) -> (r: &G)
        ensures
            *r == self.spec_generator(),
    {
        &self.generator
    }

    /// The chunk at `pos`, generated and stored on its first request.
    pub fn chunk_at(&mut self, pos: ChunkPos) -> (r: &Chunk)
        requires
            old(self).wf(),
            pos.is_addressable(),
        ensures
            final(self).wf(),
            final(self).spec_generator() == old(self).spec_generator(),
            final(self)@ == after_lookup(old(self)@, pos, r.blocks()),
            !old(self)@.contains_key(pos) ==> r.blocks() == old(self).spec_generator().spec_generate(pos),
            final(self).generation_count(pos) == generations_after(old(self)@, pos, old(self).generation_count(pos)),
            final(self).generation_count(pos) == 1,
            forall|c: ChunkPos| c != pos ==> #[trigger] final(self).generation_count(c) == old(self).generation_count(c),
            r.wf(),
            r.position() == pos,
            r.blocks() == final(self)@[pos],
    {
        let key = key_of(pos);
        if !self.chunks.contains_key(&key) {
            let generated = self.generator.generate_chunk(self, pos);
            let ghost generated_blocks = generated.blocks();
            self.chunks.insert(key, generated);
            proof {
                self.generations = Ghost(self.generations@.insert(pos, 1));
                assert forall|c: ChunkPos| #[trigger] self.chunks@.contains_key(chunk_key(c)) && c != pos
                    implies old(self).chunks@.contains_key(chunk_key(c)) by {
                    if chunk_key(c) == key {
                        lemma_chunk_key_injective(c, pos);
                    }
                }
                assert(self@ =~= old(self)@.insert(pos, generated_blocks));
                assert forall|c: ChunkPos| #[trigger]
                    self.generation_count(c) == if self@.contains_key(c) {
                        1nat
                    } else {
                        0nat
                    } by {
                    if c != pos {
                        assert(old(self).generation_count(c) == self.generation_count(c));
                    }
                }
            }
        } else {
            proof {
                assert(self@ =~= old(self)@);
                let k = chunk_key(pos);
                lemma_chunk_key_injective(self.chunks@[k].position(), pos);
            }
        }
        let r = self.chunks.get(&key).unwrap();
        proof {
            lemma_chunk_key_injective(r.position(), pos);
        }
        r
    }
}

/// Asking twice for a chunk is asking once: the second lookup changes nothing
/// and sees the blocks stored by the first, whatever a generator would give.
pub proof fn lemma_second_lookup_unchanged(
    m: Map<ChunkPos, Seq<Block>>,
    pos: ChunkPos,
    first: Seq<Block>,
    second: Seq<Block>,
)
    ensures
        after_lookup(after_lookup(m, pos, first), pos, second) == after_lookup(m, pos, first),
        after_lookup(m, pos, first).contains_key(pos),
        !m.contains_key(pos) ==> after_lookup(m, pos, first)[pos] == first,
        m.contains_key(pos) ==> after_lookup(m, pos, first) == m,
{
}

/// Two lookups of a chunk that was never generated run the generator exactly once.
pub proof fn lemma_generated_once(m: Map<ChunkPos, Seq<Block>>, pos: ChunkPos, first: Seq<Block>)
    requires
        !m.contains_key(pos),
    ensures
        generations_after(after_lookup(m, pos, first), pos, generations_after(m, pos, 0)) == 1,
{
}

} // verus!
