//! Model of the memory-mapped peripheral space.
//!
//! A [`MemBus`] holds one 32-bit word per register address in a contiguous,
//! word-aligned window. Reading returns the last value written to that
//! address (or the initial value), which models a device that does not
//! change between accesses; a runtime front end that talks to real hardware
//! performs a volatile access per [`MemBus::read`] / [`MemBus::write`] call.
//! Every write is also recorded in a ghost log, so contracts can speak of
//! the exact sequence of values a peripheral register was driven with.

use vstd::arithmetic::div_mod::{
    lemma_div_is_ordered, lemma_div_multiples_vanish, lemma_fundamental_div_mod,
};
use vstd::prelude::*;

verus! {

/// A window of word-aligned 32-bit device registers starting at `base`.
pub struct MemBus {
    base: usize,
    words: Vec<u32>,
    writes: Ghost<Seq<(usize, u32)>>,
}

/// The bus keeps its base and length: only word contents change, and only
/// at the touched addresses.
pub open spec fn preserves_outside(pre: MemBus, post: MemBus, touched: Set<usize>) -> bool {
    &&& post.base_spec() == pre.base_spec()
    &&& post.len_spec() == pre.len_spec()
    &&& forall|a: usize|
        pre.contains(a) && !touched.contains(a) ==> post.word_at(a) == pre.word_at(a)
}

/// The write log only grows, and every appended write names a touched
/// address.
pub open spec fn appends_writes_within(pre: MemBus, post: MemBus, touched: Set<usize>) -> bool {
    &&& post.log().len() >= pre.log().len()
    &&& forall|i: int| 0 <= i < pre.log().len() ==> post.log()[i] == pre.log()[i]
    &&& forall|i: int|
        pre.log().len() <= i < post.log().len() ==> touched.contains((#[trigger] post.log()[i]).0)
}

/// The step from `pre` to `post` touched only the given addresses: all
/// other words kept their values, and every logged write is at a touched
/// address.
pub open spec fn touches_only(pre: MemBus, post: MemBus, touched: Set<usize>) -> bool {
    &&& preserves_outside(pre, post, touched)
    &&& appends_writes_within(pre, post, touched)
}

/// Law: touching only `s1` and then only `s2` touches only any set that
/// covers both.
pub proof fn lemma_touches_only_trans(
    a: MemBus,
    b: MemBus,
    c: MemBus,
    s1: Set<usize>,
    s2: Set<usize>,
    s: Set<usize>,
)
    requires
        touches_only(a, b, s1),
        touches_only(b, c, s2),
        s1.subset_of(s),
        s2.subset_of(s),
    ensures
        touches_only(a, c, s),
{
    assert forall|i: int| a.log().len() <= i < c.log().len() implies s.contains(
        (#[trigger] c.log()[i]).0,
    ) by {
        if i < b.log().len() {
            assert(b.log()[i] == c.log()[i]);
        }
    }
}

/// A step that touched only `s` also counts as touching only a cover of
/// `s`.
pub proof fn lemma_touches_only_widen(a: MemBus, b: MemBus, s: Set<usize>, t: Set<usize>)
    requires
        touches_only(a, b, s),
        s.subset_of(t),
    ensures
        touches_only(a, b, t),
{
}

impl MemBus {
    /// Lowest address of the window.
    pub closed spec fn base_spec(&self) -> usize {
        self.base
    }

    /// Number of 32-bit words in the window.
    pub closed spec fn len_spec(&self) -> nat {
        self.words@.len()
    }

    /// The window is word-aligned and fits in the address space.
    pub closed spec fn wf(&self) -> bool {
        self.base % 4 == 0 && self.base + 4 * self.words@.len() <= usize::MAX
    }

    /// Whether `addr` names a register word inside the window.
    pub open spec fn contains(&self, addr: usize) -> bool {
        &&& addr % 4 == 0
        &&& self.base_spec() <= addr
        &&& addr + 4 <= self.base_spec() + 4 * self.len_spec()
    }

    /// The current content of the register word at `addr`.
    pub closed spec fn word_at(&self, addr: usize) -> u32 {
        self.words@[((addr - self.base) as int) / 4]
    }

    /// Every `(address, value)` pair ever written, oldest first.
    pub closed spec fn log(&self) -> Seq<(usize, u32)> {
        self.writes@
    }

    /// Creates a window of `nwords` zeroed register words starting at `base`.
    pub fn new(base: usize, nwords: usize) -> (r: MemBus)
        requires
            base % 4 == 0,
            base + 4 * nwords <= usize::MAX,
        ensures
            r.wf(),
            r.base_spec() == base,
            r.len_spec() == nwords,
            r.log() == Seq::<(usize, u32)>::empty(),
            forall|a: usize| r.contains(a) ==> r.word_at(a) == 0u32,
    {
        let mut words: Vec<u32> = Vec::new();
        while words.len() < nwords
            invariant
                words@.len() <= nwords,
                forall|i: int| 0 <= i < words@.len() ==> words@[i] == 0u32,
            decreases nwords - words.len(),
        {
            words.push(0u32);
        }
        let r = MemBus { base, words, writes: Ghost(Seq::empty()) };
        proof {
            assert forall|a: usize| r.contains(a) implies r.word_at(a) == 0u32 by {
                lemma_index_in_range(base, nwords as nat, a);
            }
        }
        r
    }

    /// Reads the register word at `addr`; the bus itself is unchanged.
    pub fn read(&self, addr: usize) -> (r: u32)
        requires
            self.wf(),
            self.contains(addr),
        ensures
            r == self.word_at(addr),
    {
        proof {
            lemma_index_in_range(self.base, self.words@.len(), addr);
        }
        let idx = (addr - self.base) / 4;
        self.words[idx]
    }

    /// Writes `val` to the register word at `addr`. No other word changes,
    /// and the write is appended to the log.
    pub fn write(&mut self, addr: usize, val: u32)
        requires
            old(self).wf(),
            old(self).contains(addr),
        ensures
            final (self).wf(),
            final (self).word_at(addr) == val,
            touches_only(*old(self), *final (self), set![addr]),
            final (self).log() == old(self).log().push((addr, val)),
    {
        proof {
            lemma_index_in_range(self.base, self.words@.len(), addr);
        }
        let idx = (addr - self.base) / 4;
        self.words.set(idx, val);
        self.writes = Ghost(self.writes@.push((addr, val)));
        proof {
            assert forall|a: usize| old(self).contains(a) && a != addr implies self.word_at(a)
                == old(self).word_at(a) by {
                lemma_index_in_range(self.base, self.words@.len(), a);
                if ((a - self.base) as int) / 4 == idx as int {
                    lemma_aligned_same_index(self.base, a, addr);
                }
            }
        }
    }
}

/// Two aligned addresses at or above an aligned base that select the same
/// word index are the same address.
proof fn lemma_aligned_same_index(base: usize, a: usize, b: usize)
    requires
        base % 4 == 0,
        a % 4 == 0,
        b % 4 == 0,
        base <= a,
        base <= b,
        ((a - base) as int) / 4 == ((b - base) as int) / 4,
    ensures
        a == b,
{
    lemma_fundamental_div_mod(a as int, 4);
    lemma_fundamental_div_mod(b as int, 4);
    lemma_fundamental_div_mod(base as int, 4);
    let qa = a as int / 4;
    let qb = b as int / 4;
    let q0 = base as int / 4;
    assert(a - base == 4 * (qa - q0));
    assert(b - base == 4 * (qb - q0));
    lemma_div_multiples_vanish(qa - q0, 4);
    lemma_div_multiples_vanish(qb - q0, 4);
}

/// A contained, aligned address selects a word index inside the window.
proof fn lemma_index_in_range(base: usize, len: nat, addr: usize)
    requires
        base % 4 == 0,
        addr % 4 == 0,
        base <= addr,
        addr + 4 <= base + 4 * len,
    ensures
        0 <= ((addr - base) as int) / 4 < len,
{
    let d = (addr - base) as int;
    lemma_div_is_ordered(0, d, 4);
    lemma_div_is_ordered(d, 4 * len - 4, 4);
    lemma_div_multiples_vanish(len as int - 1, 4);
    assert(4 * (len as int - 1) == 4 * len - 4);
}

} // verus!
