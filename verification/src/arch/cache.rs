//! Cleaning a cache by set and way.

use vstd::prelude::*;

verus! {

/// The shape of a cache, as its size register gives it.
#[derive(Clone, Copy, PartialEq, Eq, Structural, Debug)]
pub struct CacheGeometry {
    /// Position of the set number in the operand of a maintenance instruction.
    pub line_shift: u64,
    /// Position of the way number.
    pub way_shift: u64,
    /// Number of the last set.
    pub max_set: u64,
    /// Number of the last way.
    pub max_way: u64,
}

/// The geometry in a cache size register.
pub open spec fn geometry(ccsidr: u64) -> CacheGeometry {
    let max_way: u64 = (ccsidr >> 3) & 0x3ff;
    CacheGeometry {
        line_shift: ((ccsidr & 7) + 4) as u64,
        way_shift: vstd::std_specs::bits::u32_leading_zeros(max_way as u32) as u64,
        max_set: (ccsidr >> 13) & 0x7fff,
        max_way,
    }
}

/// Operand of the instruction that cleans one line: cache level, way and set.
pub open spec fn line_operand(level: u64, g: CacheGeometry, way: u64, set: u64) -> u64 {
    level | (way << g.way_shift) | (set << g.line_shift)
}

/// How many lines the cache has.
pub open spec fn line_count(g: CacheGeometry) -> int {
    (g.max_way + 1) * (g.max_set + 1)
}

/// The operand of the instruction for the line that comes `pos`-th: all sets of
/// a way, then the next way.
pub open spec fn nth_operand(level: u64, g: CacheGeometry, pos: int) -> u64 {
    line_operand(
        level,
        g,
        (pos / (g.max_set + 1)) as u64,
        (pos % (g.max_set + 1)) as u64,
    )
}

/// Reads the geometry out of a cache size register.
fn read_geometry(ccsidr: u64) -> (g: CacheGeometry)
    ensures
        g == geometry(ccsidr),
        g.line_shift < 64,
        g.way_shift < 64,
        g.max_way <= 0x3ff,
        g.max_set <= 0x7fff,
{
    let max_way: u64 = (ccsidr >> 3) & 0x3ff;
    let max_set: u64 = (ccsidr >> 13) & 0x7fff;
    assert(ccsidr & 7 <= 7) by (bit_vector);
    assert((ccsidr >> 3) & 0x3ff <= 0x3ff) by (bit_vector);
    assert((ccsidr >> 13) & 0x7fff <= 0x7fff) by (bit_vector);
    proof {
        vstd::std_specs::bits::axiom_u32_leading_zeros(max_way as u32);
    }
    let way_shift: u64 = (max_way as u32).leading_zeros() as u64;
    CacheGeometry { line_shift: (ccsidr & 7) + 4, way_shift, max_set, max_way }
}

/// A pass over all lines of a cache.
pub struct CacheWalk {
    level: u64,
    geometry: CacheGeometry,
    way: u64,
    set: u64,
    finished: bool,
}

impl CacheWalk {
    /// The level that the walk is for.
    pub closed spec fn spec_level(&self) -> u64 {
        self.level
    }

    /// The geometry of the cache.
    pub closed spec fn spec_geometry(&self) -> CacheGeometry {
        self.geometry
    }

    /// How many lines have been given out.
    pub closed spec fn pos(&self) -> int {
        if self.finished {
            line_count(self.geometry)
        } else {
            self.way * (self.geometry.max_set + 1) + self.set
        }
    }

    /// Well-formedness.
    pub closed spec fn wf(&self) -> bool {
        &&& self.geometry.line_shift < 64
        &&& self.geometry.way_shift < 64
        &&& self.geometry.max_way <= 0x3ff
        &&& self.geometry.max_set <= 0x7fff
        &&& self.way <= self.geometry.max_way
        &&& self.set <= self.geometry.max_set
    }

    /// Starts a pass over the cache of the given level, selected as the
    /// hardware wants it; `ccsidr` is the size register for that level.
    pub fn new(cache_level: u64, ccsidr: u64) -> (r: Self)
        ensures
            r.wf(),
            r.pos() == 0,
            r.spec_level() == cache_level,
            r.spec_geometry() == geometry(ccsidr),
    {
        CacheWalk {
            level: cache_level,
            geometry: read_geometry(ccsidr),
            way: 0,
            set: 0,
            finished: false,
        }
    }

    /// The operand for the next line, until every line has had its turn.
    pub fn next_line(&mut self) -> (r: Option<u64>)
        requires
            old(self).wf(),
        ensures
            final(self).wf(),
            final(self).spec_level() == old(self).spec_level(),
            final(self).spec_geometry() == old(self).spec_geometry(),
            0 <= old(self).pos() <= line_count(old(self).spec_geometry()),
            if old(self).pos() < line_count(old(self).spec_geometry()) {
                r == Some(
                    nth_operand(
                        old(self).spec_level(),
                        old(self).spec_geometry(),
                        old(self).pos(),
                    ),
                ) && final(self).pos() == old(self).pos() + 1
            } else {
                r.is_none() && final(self).pos() == old(self).pos()
            },
    {
        proof {
            let sets: int = self.geometry.max_set + 1;
            let ways: int = self.geometry.max_way + 1;
            assert(self.way * sets + self.set < ways * sets) by (nonlinear_arith)
                requires
                    0 <= self.way <= ways - 1,
                    0 <= self.set <= sets - 1,
            ;
            let way: int = self.way as int;
            assert((way + 1) * sets == way * sets + sets) by (nonlinear_arith);
            assert(0 <= self.way * sets && 0 <= ways * sets) by (nonlinear_arith)
                requires
                    0 <= self.way,
                    0 <= sets,
                    0 <= ways,
            ;
            vstd::arithmetic::div_mod::lemma_fundamental_div_mod_converse(
                self.way * sets + self.set,
                sets,
                self.way as int,
                self.set as int,
            );
        }
        if self.finished {
            return None;
        }
        let operand: u64 = self.level | (self.way << self.geometry.way_shift) | (self.set
            << self.geometry.line_shift);
        if self.set < self.geometry.max_set {
            self.set = self.set + 1;
        } else if self.way < self.geometry.max_way {
            self.set = 0;
            self.way = self.way + 1;
        } else {
            self.finished = true;
        }
        Some(operand)
    }
}

/// The parts of an operand do not run into each other: the set number ends below
/// the way number, and the level below the set number.
pub open spec fn parts_fit(level: u64, g: CacheGeometry) -> bool {
    &&& level < 16
    &&& 4 <= g.line_shift <= 11
    &&& g.line_shift <= g.way_shift <= 32
    &&& g.max_way <= 0x3ff
    &&& g.max_set <= 0x7fff
    &&& (g.max_set << g.line_shift) < (1u64 << g.way_shift)
}

/// Where the parts of an operand do not run into each other, different lines
/// have different operands.
pub proof fn operands_tell_lines_apart(
    level: u64,
    g: CacheGeometry,
    way_a: u64,
    set_a: u64,
    way_b: u64,
    set_b: u64,
)
    requires
        parts_fit(level, g),
        way_a <= g.max_way,
        set_a <= g.max_set,
        way_b <= g.max_way,
        set_b <= g.max_set,
        line_operand(level, g, way_a, set_a) == line_operand(level, g, way_b, set_b),
    ensures
        way_a == way_b,
        set_a == set_b,
{
    operand_parts(level, g, way_a, set_a);
    operand_parts(level, g, way_b, set_b);
}

/// The way and the set can be read back from an operand.
proof fn operand_parts(level: u64, g: CacheGeometry, way: u64, set: u64)
    requires
        parts_fit(level, g),
        way <= g.max_way,
        set <= g.max_set,
    ensures
        line_operand(level, g, way, set) >> g.way_shift == way,
        (line_operand(level, g, way, set) & !(way << g.way_shift)) >> g.line_shift == set,
{
    let ws: u64 = g.way_shift;
    let ls: u64 = g.line_shift;
    let max: u64 = g.max_set;
    assert((level | (way << ws) | (set << ls)) >> ws == way) by (bit_vector)
        requires
            level < 16,
            4 <= ls <= 11,
            ls <= ws <= 32,
            way <= 0x3ff,
            max <= 0x7fff,
            set <= max,
            (max << ls) < (1u64 << ws),
    ;
    assert(((level | (way << ws) | (set << ls)) & !(way << ws)) >> ls == set) by (bit_vector)
        requires
            level < 16,
            4 <= ls <= 11,
            ls <= ws <= 32,
            way <= 0x3ff,
            max <= 0x7fff,
            set <= max,
            (max << ls) < (1u64 << ws),
    ;
}

/// A complete pass gives every line of the cache exactly one turn: way `way`
/// and set `set` come up at one position, and at no other.
pub proof fn every_line_once(level: u64, g: CacheGeometry, way: u64, set: u64, pos: int)
    requires
        way <= g.max_way,
        set <= g.max_set,
    ensures
        0 <= way * (g.max_set + 1) + set < line_count(g),
        nth_operand(level, g, way * (g.max_set + 1) + set) == line_operand(level, g, way, set),
        0 <= pos && pos / (g.max_set + 1) == way && pos % (g.max_set + 1) == set ==> pos == way * (
        g.max_set + 1) + set,
{
    let sets: int = g.max_set + 1;
    let ways: int = g.max_way + 1;
    assert(way * sets + set < ways * sets) by (nonlinear_arith)
        requires
            0 <= way <= ways - 1,
            0 <= set <= sets - 1,
    ;
    assert(0 <= way * sets) by (nonlinear_arith)
        requires
            0 <= way,
            0 <= sets,
    ;
    vstd::arithmetic::div_mod::lemma_fundamental_div_mod_converse(
        way * sets + set,
        sets,
        way as int,
        set as int,
    );
    vstd::arithmetic::div_mod::lemma_fundamental_div_mod(pos, sets);
    assert(sets * (pos / sets) == (pos / sets) * sets) by (nonlinear_arith);
}

/// The geometry is what the size register holds: the line size in its lowest
/// bits, then the number of the last way, then that of the last set. The way
/// number ends at bit 31 of an operand.
pub proof fn geometry_is_in_the_register(ccsidr: u64, line: u64, ways: u64, sets: u64, rest: u64)
    requires
        line <= 7,
        ways <= 0x3ff,
        sets <= 0x7fff,
        rest < 0x10_0000_0000,
        ccsidr == (line | (ways << 3) | (sets << 13) | (rest << 28)),
    ensures
        geometry(ccsidr).line_shift == line + 4,
        geometry(ccsidr).max_way == ways,
        geometry(ccsidr).max_set == sets,
        ways == 0 ==> geometry(ccsidr).way_shift == 32,
        ways > 0 ==> 0x8000_0000 <= (ways << geometry(ccsidr).way_shift) < 0x1_0000_0000,
{
    assert(ccsidr & 7 == line && (ccsidr >> 3) & 0x3ff == ways && (ccsidr >> 13) & 0x7fff == sets)
        by (bit_vector)
        requires
            line <= 7,
            ways <= 0x3ff,
            sets <= 0x7fff,
            ccsidr == (line | (ways << 3) | (sets << 13) | (rest << 28)),
    ;
    let w: u32 = ways as u32;
    vstd::std_specs::bits::axiom_u32_leading_zeros(w);
    if ways > 0 {
        let z: u32 = vstd::std_specs::bits::u32_leading_zeros(w);
        let z64: u64 = z as u64;
        let top: u32 = (31 - z) as u32;
        let above: u32 = (32 - z) as u32;
        assert(0x8000_0000 <= (ways << z64) < 0x1_0000_0000) by (bit_vector)
            requires
                0 < ways <= 0x3ff,
                w == ways,
                z < 32,
                z64 == z,
                top == 31 - z,
                above == 32 - z,
                (w >> top) & 1 != 0,
                above < 32 ==> w >> above == 0,
        ;
    }
}

/// An operand holds the level, the way and the set, each at its place; and there
/// are as many lines as ways times sets.
pub proof fn operand_holds_level_way_and_set(level: u64, g: CacheGeometry, way: u64, set: u64)
    ensures
        line_operand(level, g, way, set) == level | (way << g.way_shift) | (set << g.line_shift),
        line_count(g) == (g.max_way + 1) * (g.max_set + 1),
{
}

} // verus!
