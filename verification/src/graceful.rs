//! Read-copy-update with grace periods.
//!
//! An [`Rcu`] pointer is read under a [`Grace`] token and updated
//! against a [`GraceSource`], the reclamation domain shared by every
//! pointer that opts in.  The source keeps a chain of *generations*,
//! one per update: the update seals the generation that was current,
//! records the displaced value in it, and opens a fresh generation.  A
//! token pins the generation that was current when it was acquired;
//! generations are reclaimed strictly in creation order, and only once
//! no token pins them or any older generation.  So a value observed
//! under a token is never freed while the token is alive: the classic
//! grace-period guarantee, paid for at token acquisition instead of on
//! every read.

use vstd::pervasive::VecAdditionalExecFns;
use vstd::prelude::*;

verus! {

/// One epoch's retirement bookkeeping: the values displaced while this
/// generation was being sealed, and the count of tokens pinning it.
struct Generation<T> {
    retired: Vec<T>,
    tokens: usize,
}

/// The reclamation domain: the chain of generations, oldest first.
///
/// Generations below `freed_below` have been reclaimed: their retired
/// values are dropped and no token pins them.  The last generation is
/// the current one; it is never reclaimed.
pub struct GraceSource<T> {
    gens: Vec<Generation<T>>,
    freed_below: usize,
}

/// A grace token: pins the generation that was current when the token
/// was acquired, and with it every younger generation.
pub struct Grace {
    generation: usize,
}

impl Grace {
    /// The index of the generation this token pins.
    pub closed spec fn generation(&self) -> int {
        self.generation as int
    }

    /// Acquire a token on the source's current generation.
    ///
    /// Reads made under this token are safe against every later update:
    /// nothing those reads could observe is reclaimed while the token
    /// is alive.
    pub fn new<T>(src: &mut GraceSource<T>) -> (g: Grace)
        requires
            old(src).wf(),
            old(src).tokens_at(old(src).generation_count() - 1) < usize::MAX,
        ensures
            final(src).wf(),
            g.generation() == old(src).generation_count() - 1,
            final(src).generation_count() == old(src).generation_count(),
            final(src).freed_bound() == old(src).freed_bound(),
            final(src).tokens_at(g.generation()) == old(src).tokens_at(g.generation()) + 1,
            forall|i: int|
                0 <= i < old(src).generation_count() && i != g.generation() ==> final(src).tokens_at(i) == old(src).tokens_at(i),
            forall|i: int|
                0 <= i < old(src).generation_count() ==> final(src).retired_at(i) =~= old(src).retired_at(i),
    {
        let i: usize = src.gens.len() - 1;
        let mut slot = Generation { retired: Vec::new(), tokens: 0 };
        src.gens.set_and_swap(i, &mut slot);
        slot.tokens = slot.tokens + 1;
        src.gens.set_and_swap(i, &mut slot);
        Grace { generation: i }
    }
}

impl<T> GraceSource<T> {
    /// How many generations the chain has seen, reclaimed ones included.
    pub closed spec fn generation_count(&self) -> int {
        self.gens@.len() as int
    }

    /// Generations below this index have been reclaimed.
    pub closed spec fn freed_bound(&self) -> int {
        self.freed_below as int
    }

    /// Whether generation `i` has been reclaimed.
    pub open spec fn is_freed(&self, i: int) -> bool {
        i < self.freed_bound()
    }

    /// How many tokens pin generation `i`.
    pub closed spec fn tokens_at(&self, i: int) -> int {
        self.gens@[i].tokens as int
    }

    /// The values retired into generation `i`, oldest first.
    pub closed spec fn retired_at(&self, i: int) -> Seq<T> {
        self.gens@[i].retired@
    }

    /// There is a current generation, it is not reclaimed, and every
    /// reclaimed generation is unpinned and emptied.
    pub closed spec fn wf(&self) -> bool {
        &&& self.gens@.len() >= 1
        &&& (self.freed_below as int) < self.gens@.len()
        &&& forall|i: int|
            0 <= i < self.freed_below ==> (#[trigger] self.gens@[i]).tokens == 0
                && self.gens@[i].retired@.len() == 0
    }

    /// A fresh domain with one empty, unpinned current generation.
    pub fn new() -> (s: Self)
        ensures
            s.wf(),
            s.generation_count() == 1,
            s.freed_bound() == 0,
            s.tokens_at(0) == 0,
            s.retired_at(0) =~= Seq::<T>::empty(),
    {
        let mut gens: Vec<Generation<T>> = Vec::new();
        gens.push(Generation { retired: Vec::new(), tokens: 0 });
        GraceSource { gens, freed_below: 0 }
    }

    /// Reclaim every generation that is no longer current and is pinned
    /// by no token on it or any older generation: their retired values
    /// are dropped, strictly in creation order.
    fn sweep(&mut self)
        requires
            old(self).wf(),
        ensures
            final(self).wf(),
            final(self).generation_count() == old(self).generation_count(),
            old(self).freed_bound() <= final(self).freed_bound(),
            forall|i: int|
                0 <= i < old(self).generation_count() ==> final(self).tokens_at(i) == old(self).tokens_at(i),
            forall|i: int|
                final(self).freed_bound() <= i < final(self).generation_count() ==> final(self).retired_at(i) =~= old(self).retired_at(i),
            final(self).freed_bound() == final(self).generation_count() - 1 || final(self).tokens_at(final(self).freed_bound()) > 0,
    {
        let len: usize = self.gens.len();
        while self.freed_below < len - 1 && self.gens[self.freed_below].tokens == 0
            invariant
                self.wf(),
                len == self.generation_count(),
                old(self).freed_bound() <= self.freed_bound(),
                forall|i: int|
                    0 <= i < len ==> self.tokens_at(i) == old(self).tokens_at(i),
                forall|i: int|
                    self.freed_bound() <= i < len ==> self.retired_at(i) =~= old(self).retired_at(
                        i,
                    ),
            decreases len - self.freed_below,
        {
            let mut slot = Generation { retired: Vec::new(), tokens: 0 };
            self.gens.set_and_swap(self.freed_below, &mut slot);
            self.freed_below = self.freed_below + 1;
        }
    }

    /// Give back a token.  The pinned generation's token count drops by
    /// one; then every generation whose reclamation this token was
    /// delaying is reclaimed, in creation order, up to the first still
    /// pinned generation and never past the current one.
    pub fn release(&mut self, g: Grace)
        requires
            old(self).wf(),
            0 <= g.generation() < old(self).generation_count(),
            old(self).tokens_at(g.generation()) >= 1,
        ensures
            final(self).wf(),
            final(self).generation_count() == old(self).generation_count(),
            old(self).freed_bound() <= final(self).freed_bound(),
            final(self).tokens_at(g.generation()) == old(self).tokens_at(g.generation()) - 1,
            forall|i: int|
                0 <= i < old(self).generation_count() && i != g.generation() ==> final(self).tokens_at(i) == old(self).tokens_at(i),
            forall|i: int|
                final(self).freed_bound() <= i < final(self).generation_count() ==> final(self).retired_at(i) =~= old(self).retired_at(i),
            final(self).freed_bound() == final(self).generation_count() - 1 || final(self).tokens_at(final(self).freed_bound()) > 0,
    {
        let i: usize = g.generation;
        let mut slot = Generation { retired: Vec::new(), tokens: 0 };
        self.gens.set_and_swap(i, &mut slot);
        slot.tokens = slot.tokens - 1;
        self.gens.set_and_swap(i, &mut slot);
        self.sweep();
    }

    /// How many generations the chain has seen.
    pub fn generations(&self) -> (n: usize)
        ensures
            n == self.generation_count(),
    {
        self.gens.len()
    }

    /// Generations below this index have been reclaimed.
    pub fn reclaimed_below(&self) -> (n: usize)
        ensures
            n == self.freed_bound(),
    {
        self.freed_below
    }

    /// How many values generation `i` still retains.
    pub fn retired_len(&self, i: usize) -> (n: usize)
        requires
            0 <= i < self.generation_count(),
        ensures
            n == self.retired_at(i as int).len(),
    {
        self.gens[i].retired.len()
    }

    /// How many tokens pin generation `i`.
    pub fn token_count(&self, i: usize) -> (n: usize)
        requires
            0 <= i < self.generation_count(),
        ensures
            n == self.tokens_at(i as int),
    {
        self.gens[i].tokens
    }
}

/// What well-formedness of a reclamation domain gives every caller:
/// there is a current generation, it is never reclaimed, and every
/// reclaimed generation is unpinned with its retired values dropped.
pub proof fn lemma_source_bounds<T>(src: GraceSource<T>)
    requires
        src.wf(),
    ensures
        src.generation_count() >= 1,
        0 <= src.freed_bound() < src.generation_count(),
        forall|i: int|
            0 <= i < src.freed_bound() ==> #[trigger] src.tokens_at(i) == 0 && src.retired_at(
                i,
            ).len() == 0,
{
}

/// While a token is alive, no generation from the one it pins onward is
/// reclaimed, however many updates and other releases happen: values a
/// read under the token could observe are retained.
pub proof fn lemma_grace_protects<T>(src: GraceSource<T>, g: int, i: int)
    requires
        src.wf(),
        0 <= g < src.generation_count(),
        src.tokens_at(g) >= 1,
        g <= i < src.generation_count(),
    ensures
        !src.is_freed(i),
{
    if src.is_freed(i) {
        assert(src.tokens_at(g) == 0);
    }
}

/// A value displaced by an update is retained, not dropped, for as
/// long as any token acquired before that update is alive: the update
/// records it in the generation being sealed, and that generation
/// cannot be reclaimed while a token pins it or any older generation.
/// `pre` and `post` are the domain before and after the `update` that
/// displaced `v`, related as `update` ensures; `g` is the generation
/// some live token pins.
pub proof fn lemma_token_retains_displaced<T>(
    pre: GraceSource<T>,
    post: GraceSource<T>,
    v: T,
    g: int,
)
    requires
        post.wf(),
        post.generation_count() == pre.generation_count() + 1,
        0 <= g < pre.generation_count(),
        post.tokens_at(g) >= 1,
        !post.is_freed(pre.generation_count() - 1) ==> post.retired_at(
            pre.generation_count() - 1,
        ) =~= pre.retired_at(pre.generation_count() - 1).push(v),
    ensures
        !post.is_freed(pre.generation_count() - 1),
        post.retired_at(pre.generation_count() - 1).contains(v),
{
    let sealed: int = pre.generation_count() - 1;
    lemma_grace_protects(post, g, sealed);
    assert(post.retired_at(sealed)[post.retired_at(sealed).len() - 1] == v);
}

/// A reference-counted read-copy-update pointer with grace periods.
///
/// Reading costs one acquire-ordered pointer load under a previously
/// acquired [`Grace`] token; updating replaces the value and retires
/// the displaced one into its [`GraceSource`]'s current generation,
/// then advances the generation chain.
pub struct Rcu<T> {
    current: T,
}

/// A reference to contents being read under a grace token.
pub struct RcuGuard<'a, T> {
    value: &'a T,
}

impl<'a, T> RcuGuard<'a, T> {
    /// The value observed by the read.
    pub closed spec fn value(&self) -> T {
        *self.value
    }

    /// The observed value itself.
    pub fn get(&self) -> (r: &T)
        ensures
            *r == self.value(),
    {
        self.value
    }
}

impl<T> Rcu<T> {
    /// The value a read observes.
    pub closed spec fn current_value(&self) -> T {
        self.current
    }

    /// Allocate a new pointer holding `value`.
    pub fn new(value: T) -> (p: Self)
        ensures
            p.current_value() == value,
    {
        Rcu { current: value }
    }

    /// Read the pointer under a grace token.
    ///
    /// The token is what makes the returned reference safe against
    /// concurrent updates: everything it could observe is retained at
    /// least until the token is released.
    pub fn read<'a>(&'a self, _grace: &'a Grace) -> (r: RcuGuard<'a, T>)
        ensures
            r.value() == self.current_value(),
    {
        RcuGuard { value: &self.current }
    }

    /// Replace the pointed-to value.
    ///
    /// The displaced value is recorded in the generation being sealed,
    /// a fresh empty generation becomes current, and generations no
    /// token delays any longer are reclaimed in creation order.
    pub fn update(&mut self, src: &mut GraceSource<T>, value: T)
        requires
            old(src).wf(),
        ensures
            final(self).current_value() == value,
            final(src).wf(),
            final(src).generation_count() == old(src).generation_count() + 1,
            old(src).freed_bound() <= final(src).freed_bound(),
            forall|i: int|
                0 <= i < old(src).generation_count() ==> final(src).tokens_at(i) == old(src).tokens_at(i),
            final(src).tokens_at(old(src).generation_count()) == 0,
            forall|i: int|
                final(src).freed_bound() <= i < old(src).generation_count() - 1 ==> final(src).retired_at(i) =~= old(src).retired_at(i),
            !final(src).is_freed(old(src).generation_count() - 1) ==> final(src).retired_at(
                old(src).generation_count() - 1,
            ) =~= old(src).retired_at(old(src).generation_count() - 1).push(
                old(self).current_value(),
            ),
            final(src).retired_at(old(src).generation_count()) =~= Seq::<T>::empty(),
            final(src).freed_bound() == final(src).generation_count() - 1 || final(src).tokens_at(final(src).freed_bound()) > 0,
    {
        let sealed: usize = src.gens.len() - 1;
        let mut displaced = value;
        core::mem::swap(&mut self.current, &mut displaced);
        let mut slot = Generation { retired: Vec::new(), tokens: 0 };
        src.gens.set_and_swap(sealed, &mut slot);
        slot.retired.push(displaced);
        src.gens.set_and_swap(sealed, &mut slot);
        src.gens.push(Generation { retired: Vec::new(), tokens: 0 });
        src.sweep();
    }
}

} // verus!
