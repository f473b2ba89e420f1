//! Delay buffers carved out of one fixed sample arena, and the self-healing
//! check that keeps them bound to the arena's current address.
//!
//! A binding is kept as an offset and a length relative to the arena; the
//! address at which the bindings were last resolved is recorded beside them.
//! When the owner of the arena is relocated, the recorded address goes stale,
//! and the next check rebinds every span at the new address.
use vstd::prelude::*;
use crate::tuning::{total, lemma_total_take_next, lemma_total_prefix};

verus! {

/// A sub-range of the arena: `len` samples starting at `offset`.
#[derive(Clone, Copy, Debug, PartialEq, Eq, Structural)]
pub struct Span {
    pub offset: usize,
    pub len: usize,
}

/// Why an arena cannot hold the requested buffers.
#[derive(Clone, Copy, Debug, PartialEq, Eq, Structural)]
pub enum ArenaError {
    /// The lengths asked for add up to more than the arena's capacity.
    TooSmall,
}

/// The bindings of a set of delay buffers into one arena.
pub struct ArenaBindings {
    capacity: usize,
    spans: Vec<Span>,
    base: Option<usize>,
}

impl ArenaBindings {
    /// The spans, in the order in which they were carved.
    pub closed spec fn spans_spec(&self) -> Seq<Span> {
        self.spans@
    }

    /// The arena's capacity, in samples.
    pub closed spec fn capacity_spec(&self) -> nat {
        self.capacity as nat
    }

    /// The arena address at which the spans were last bound; `None` before the
    /// first placement.
    pub closed spec fn base_spec(&self) -> Option<usize> {
        self.base
    }

    /// Every span lies inside the arena, and each ends before the next one
    /// starts: no two buffers share a sample.
    pub open spec fn wf(&self) -> bool {
        &&& forall|k: int|
            0 <= k < self.spans_spec().len() ==> #[trigger] self.spans_spec()[k].offset
                + self.spans_spec()[k].len <= self.capacity_spec()
        &&& forall|j: int, k: int|
            0 <= j < k < self.spans_spec().len() ==> #[trigger] self.spans_spec()[j].offset
                + self.spans_spec()[j].len <= #[trigger] self.spans_spec()[k].offset
    }

    /// The spans of `self` are `lengths` laid end to end from the start of the
    /// arena.
    pub open spec fn carved_from(&self, lengths: Seq<usize>) -> bool {
        &&& self.spans_spec().len() == lengths.len()
        &&& forall|k: int|
            0 <= k < lengths.len() ==> (#[trigger] self.spans_spec()[k]).offset == total(
                lengths.take(k),
            ) && self.spans_spec()[k].len == lengths[k]
    }

    /// Address at which span `k` is resolved, if the spans are bound.
    pub open spec fn address_of(&self, k: int) -> Option<int> {
        match self.base_spec() {
            Some(b) => Some(b + self.spans_spec()[k].offset),
            None => None,
        }
    }

    /// What one self-healing check at `current_base` does: `after` keeps the
    /// capacity and every span of `before`, is bound at `current_base`, and
    /// `rebound` tells whether the recorded address differed.
    pub open spec fn healed(before: Self, after: Self, current_base: usize, rebound: bool) -> bool {
        &&& after.capacity_spec() == before.capacity_spec()
        &&& after.spans_spec() == before.spans_spec()
        &&& after.base_spec() == Some(current_base)
        &&& rebound == (before.base_spec() != Some(current_base))
    }

    /// Lays `lengths` end to end in an arena of `capacity` samples. Fails when
    /// they add up to more than the capacity. The result is not yet bound to
    /// any address.
    pub fn carve(lengths: &Vec<usize>, capacity: usize) -> (r: Result<ArenaBindings, ArenaError>)
        ensures
            match r {
                Ok(b) => {
                    &&& total(lengths@) <= capacity
                    &&& b.wf()
                    &&& b.carved_from(lengths@)
                    &&& b.capacity_spec() == capacity
                    &&& b.base_spec() is None
                },
                Err(e) => total(lengths@) > capacity && e == ArenaError::TooSmall,
            },
    {
        let mut spans: Vec<Span> = Vec::new();
        let mut offset: usize = 0;
        let mut i: usize = 0;
        while i < lengths.len()
            invariant
                i <= lengths.len(),
                offset == total(lengths@.take(i as int)),
                offset <= capacity,
                spans@.len() == i,
                forall|j: int|
                    0 <= j < i ==> (#[trigger] spans@[j]).offset == total(lengths@.take(j))
                        && spans@[j].len == lengths@[j] && spans@[j].offset + spans@[j].len
                        <= offset,
                forall|j: int, k: int|
                    0 <= j < k < i ==> #[trigger] spans@[j].offset + spans@[j].len
                        <= #[trigger] spans@[k].offset,
            decreases lengths.len() - i,
        {
            let len = lengths[i];
            proof {
                lemma_total_take_next(lengths@, i as int);
            }
            if len > capacity - offset {
                proof {
                    lemma_total_prefix(lengths@, i as int + 1);
                }
                return Err(ArenaError::TooSmall);
            }
            spans.push(Span { offset, len });
            offset = offset + len;
            i += 1;
        }
        assert(lengths@.take(lengths@.len() as int) =~= lengths@);
        Ok(ArenaBindings { capacity, spans, base: None })
    }

    /// Number of spans.
    pub fn len(&self) -> (r: usize)
        ensures
            r == self.spans_spec().len(),
    {
        self.spans.len()
    }

    /// The arena's capacity, in samples.
    pub fn capacity(&self) -> (r: usize)
        ensures
            r == self.capacity_spec(),
    {
        self.capacity
    }

    /// Span `k`.
    pub fn span(&self, k: usize) -> (r: Span)
        requires
            k < self.spans_spec().len(),
        ensures
            r == self.spans_spec()[k as int],
    {
        self.spans[k]
    }

    /// Whether the spans are bound at the arena address `current_base`.
    pub fn is_bound_at(&self, current_base: usize) -> (r: bool)
        ensures
            r == (self.base_spec() == Some(current_base)),
    {
        match self.base {
            Some(b) => b == current_base,
            None => false,
        }
    }

    /// The self-healing check, run before any buffer is touched: when the
    /// recorded address differs from `current_base` (the arena was relocated,
    /// or never bound), every span is rebound at `current_base` with its offset
    /// and length kept. Returns whether it rebound.
    pub fn ensure_bound(&mut self, current_base: usize) -> (rebound: bool)
        ensures
            Self::healed(*old(self), *final(self), current_base, rebound),
            final(self).wf() == old(self).wf(),
            forall|k: int|
                0 <= k < final(self).spans_spec().len() ==> #[trigger] final(self).address_of(k)
                    == Some(current_base + final(self).spans_spec()[k].offset),
    {
        let rebound = !self.is_bound_at(current_base);
        if rebound {
            self.base = Some(current_base);
        }
        rebound
    }
}

/// A second self-healing check at the same address, with no relocation in
/// between, changes nothing and reports no rebinding.
pub proof fn lemma_ensure_bound_idempotent(
    first: ArenaBindings,
    second: ArenaBindings,
    third: ArenaBindings,
    current_base: usize,
    first_rebound: bool,
    second_rebound: bool,
)
    requires
        ArenaBindings::healed(first, second, current_base, first_rebound),
        ArenaBindings::healed(second, third, current_base, second_rebound),
    ensures
        !second_rebound,
        third.spans_spec() == second.spans_spec(),
        third.capacity_spec() == second.capacity_spec(),
        third.base_spec() == second.base_spec(),
{
}

} // verus!
