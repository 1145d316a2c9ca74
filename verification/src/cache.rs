//! Cache geometry and the cache report lines. The byte size of a
//! cache level is the product of its four geometry fields.

use vstd::prelude::*;

use crate::dec::{dec_rep, u128_to_dec};

verus! {

/// One cache level's geometry, as plain values.
#[derive(Clone, Copy)]
pub struct CacheLevel {
    pub level: u8,
    pub associativity: u32,
    pub partitions: u32,
    pub line_size: u32,
    pub sets: u64,
}

impl CacheLevel {
    /// The ranges the hardware encoding can produce: ten bits plus
    /// one for ways and for partitions, twelve bits plus one for the
    /// line size, a 32-bit count plus one for sets.
    pub open spec fn wf(self) -> bool {
        &&& self.associativity <= 1024
        &&& self.partitions <= 1024
        &&& self.line_size <= 4096
        &&& self.sets <= 0x1_0000_0000
    }

    /// The cache size in bytes: the product of the four geometry
    /// fields.
    pub open spec fn spec_size(self) -> int {
        self.associativity * self.partitions * self.line_size * self.sets
    }
}

/// Computes a cache level's size in bytes.
pub fn cache_size_bytes(c: &CacheLevel) -> (r: u128)
    requires
        c.wf(),
    ensures
        r == c.spec_size(),
{
    let ways = c.associativity as u128;
    let parts = c.partitions as u128;
    let line = c.line_size as u128;
    let sets = c.sets as u128;
    proof {
        assert(ways * parts <= 1024 * 1024) by (nonlinear_arith)
            requires
                0 <= ways <= 1024,
                0 <= parts <= 1024,
        ;
        assert(ways * parts * line <= 1024 * 1024 * 4096) by (nonlinear_arith)
            requires
                0 <= ways * parts <= 1024 * 1024,
                0 <= line <= 4096,
        ;
        assert(ways * parts * line * sets <= 1024 * 1024 * 4096 * 0x1_0000_0000)
            by (nonlinear_arith)
            requires
                0 <= ways * parts * line <= 1024 * 1024 * 4096,
                0 <= sets <= 0x1_0000_0000,
        ;
    }
    ways * parts * line * sets
}

/// One cache report line: `L<level>-Cache size: <size> bytes`.
pub open spec fn cache_line_of(c: CacheLevel) -> Seq<char> {
    "L"@ + dec_rep(c.level as nat) + "-Cache size: "@ + dec_rep(c.spec_size() as nat)
        + " bytes"@
}

/// Renders the report line for one cache level.
pub fn cache_line(c: &CacheLevel) -> (r: String)
    requires
        c.wf(),
    ensures
        r@ == cache_line_of(*c),
{
    let mut s = String::from_str("L");
    let level = u128_to_dec(c.level as u128);
    s.append(level.as_str());
    s.append("-Cache size: ");
    let size = u128_to_dec(cache_size_bytes(c));
    s.append(size.as_str());
    s.append(" bytes");
    s
}

/// The cache section: one line per reported level, or a single
/// informational line when cache parameters are unavailable.
pub fn cache_lines(caches: &Option<Vec<CacheLevel>>) -> (r: Vec<String>)
    requires
        caches matches Some(v) ==> forall|i: int| 0 <= i < v@.len() ==> (#[trigger] v@[i]).wf(),
    ensures
        match caches {
            None => r@.len() == 1 && r@[0]@ == "No cache parameter information available"@,
            Some(v) => r@.len() == v@.len() && (forall|i: int|
                0 <= i < v@.len() ==> #[trigger] r@[i]@ == cache_line_of(v@[i])),
        },
{
    let mut out: Vec<String> = Vec::new();
    match caches {
        None => {
            out.push(String::from_str("No cache parameter information available"));
        },
        Some(v) => {
            let mut i: usize = 0;
            while i < v.len()
                invariant
                    i <= v@.len(),
                    out@.len() == i,
                    forall|k: int| 0 <= k < v@.len() ==> (#[trigger] v@[k]).wf(),
                    forall|j: int| 0 <= j < i ==> #[trigger] out@[j]@ == cache_line_of(v@[j]),
                decreases v@.len() - i,
            {
                let line = cache_line(&v[i]);
                out.push(line);
                i += 1;
            }
        },
    }
    out
}

} // verus!
