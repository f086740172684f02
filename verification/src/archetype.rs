//! Archetypes: the component types that an entity is made of, in the order
//! in which they were added, each with the size of one value.

use std::cmp::Ordering;
use vstd::prelude::*;
use vstd::std_specs::cmp::PartialEqSpecImpl;
use vstd::std_specs::cmp::PartialOrdSpecImpl;

verus! {

/// What an archetype records of one component type.
#[derive(Debug, Clone, Copy, PartialEq, Eq, Hash, Structural)]
pub struct Meta {
    /// The identity of the component type.
    pub id: u64,
    /// The size of one value of the type, in bytes.
    pub size: usize,
}

/// The sizes of the given component types, added up.
pub open spec fn total(metas: Seq<Meta>) -> int
    decreases metas.len(),
{
    if metas.len() == 0 {
        0
    } else {
        total(metas.drop_last()) + metas.last().size
    }
}

/// Whether one of the given component types has the identity `id`.
pub open spec fn names(metas: Seq<Meta>, id: u64) -> bool {
    exists|i: int| 0 <= i < metas.len() && metas[i].id == id
}

/// Whether every identity among `metas` also occurs among `others`.
pub open spec fn within(metas: Seq<Meta>, others: Seq<Meta>) -> bool {
    forall|i: int| 0 <= i < metas.len() ==> names(others, #[trigger] metas[i].id)
}

/// The given component types followed by `meta`, unless `meta` is among them.
pub open spec fn absorbed(metas: Seq<Meta>, meta: Meta) -> Seq<Meta> {
    if metas.contains(meta) {
        metas
    } else {
        metas.push(meta)
    }
}

/// The given component types followed by those of `more` that are new, each
/// once and in the order of `more`.
pub open spec fn merged(metas: Seq<Meta>, more: Seq<Meta>) -> Seq<Meta>
    decreases more.len(),
{
    if more.len() == 0 {
        metas
    } else {
        merged(absorbed(metas, more.first()), more.drop_first())
    }
}

/// The sizes of a prefix add up to no more than the sizes of the whole.
pub proof fn lemma_total_of_prefix(metas: Seq<Meta>, count: int)
    requires
        0 <= count <= metas.len(),
    ensures
        total(metas.take(count)) <= total(metas),
        count < metas.len() ==> total(metas.take(count + 1)) == total(metas.take(count))
            + metas[count].size,
    decreases metas.len(),
{
    if count < metas.len() {
        assert(metas.take(count + 1).drop_last() =~= metas.take(count));
        assert(metas.drop_last().take(count) =~= metas.take(count));
        lemma_total_of_prefix(metas.drop_last(), count);
    } else {
        assert(metas.take(count) =~= metas);
    }
}

/// Merging keeps the component types that were there, in their places, and
/// so shrinks neither their number nor their total size.
pub proof fn lemma_merged_extends(metas: Seq<Meta>, more: Seq<Meta>)
    ensures
        metas.len() <= merged(metas, more).len(),
        merged(metas, more).take(metas.len() as int) == metas,
        total(metas) <= total(merged(metas, more)),
    decreases more.len(),
{
    if more.len() > 0 {
        lemma_merged_extends(absorbed(metas, more.first()), more.drop_first());
        lemma_total_of_prefix(merged(metas, more), metas.len() as int);
    }
}

/// Merging adds no more component types than `more` holds, and no more bytes.
pub proof fn lemma_merged_bounds(metas: Seq<Meta>, more: Seq<Meta>)
    ensures
        merged(metas, more).len() <= metas.len() + more.len(),
        total(merged(metas, more)) <= total(metas) + total(more),
    decreases more.len(),
{
    if more.len() > 0 {
        let next = absorbed(metas, more.first());
        lemma_merged_bounds(next, more.drop_first());
        assert(metas.push(more.first()).drop_last() =~= metas);
        lemma_total_from_front(more);
    }
}

/// The sizes add up the same from the front as from the back.
proof fn lemma_total_from_front(metas: Seq<Meta>)
    requires
        metas.len() > 0,
    ensures
        total(metas) == metas.first().size + total(metas.drop_first()),
    decreases metas.len(),
{
    if metas.len() > 1 {
        lemma_total_from_front(metas.drop_last());
        assert(metas.drop_last().drop_first() =~= metas.drop_first().drop_last());
    } else {
        assert(metas.drop_first() =~= Seq::<Meta>::empty());
        assert(metas.drop_last() =~= Seq::<Meta>::empty());
    }
}

/// The component types of an entity: at most [`Archetype::MAX`] of them,
/// whose sizes add up to a number that fits in `usize`.
#[derive(Debug, Hash)]
pub struct Archetype(Vec<Meta>);

impl View for Archetype {
    type V = Seq<Meta>;

    closed spec fn view(&self) -> Seq<Meta> {
        self.0@
    }
}

impl Archetype {
    /// The number of component types that an archetype can hold.
    pub const MAX: usize = 256;

    /// An archetype stays within its limits.
    #[verifier::type_invariant]
    spec fn within_limits(&self) -> bool {
        self.0@.len() <= Self::MAX && total(self.0@) <= usize::MAX
    }

    /// The distance in bytes from the start of an entity to its component
    /// number `index`, or to the end of the last one if there are fewer; an
    /// entity of no bytes counts as one byte.
    pub open spec fn spec_offset_of(&self, index: usize) -> int {
        let count = if index <= self@.len() {
            index as int
        } else {
            self@.len() as int
        };
        if total(self@.take(count)) == 0 {
            1
        } else {
            total(self@.take(count))
        }
    }

    /// The archetype of no component types.
    pub fn new() -> (archetype: Self)
        ensures
            archetype@ == Seq::<Meta>::empty(),
    {
        Archetype(Vec::new())
    }

    /// The archetype of the one component type `meta`.
    pub fn from(meta: Meta) -> (archetype: Self)
        ensures
            archetype@ == seq![meta],
    {
        let mut metas: Vec<Meta> = Vec::new();
        metas.push(meta);
        proof {
            assert(total(metas@.drop_last()) == 0);
        }
        Archetype(metas)
    }

    /// The archetype of the given component types, in their order.
    pub fn from_vec(metas: Vec<Meta>) -> (archetype: Self)
        requires
            metas@.len() <= Self::MAX,
            total(metas@) <= usize::MAX,
        ensures
            archetype@ == metas@,
    {
        Archetype(metas)
    }

    /// The component types, in their order.
    pub fn into_vec(self) -> (metas: Vec<Meta>)
        ensures
            metas@ == self@,
    {
        self.0
    }

    /// The size in bytes of an entity of this archetype, at least one.
    pub fn size(&self) -> (size: usize)
        ensures
            size == self.spec_offset_of(self@.len() as usize),
            size >= 1,
    {
        self.offset_of(self.count())
    }

    /// The number of component types.
    pub fn count(&self) -> (count: usize)
        ensures
            count == self@.len(),
            count <= Self::MAX,
    {
        proof {
            use_type_invariant(self);
        }
        self.0.len()
    }

    /// The component type number `index`.
    pub fn get(&self, index: usize) -> (meta: Meta)
        requires
            index < self@.len(),
        ensures
            meta == self@[index as int],
    {
        self.0[index]
    }

    /// Whether `meta` is among the component types.
    pub fn contains(&self, meta: &Meta) -> (found: bool)
        ensures
            found == self@.contains(*meta),
    {
        let mut i: usize = 0;
        while i < self.0.len()
            invariant
                i <= self@.len(),
                forall|j: int| 0 <= j < i ==> self@[j] != *meta,
            decreases self@.len() - i,
        {
            if self.0[i] == *meta {
                return true;
            }
            i += 1;
        }
        false
    }

    /// Whether one of the component types has the identity `id`.
    pub fn names(&self, id: u64) -> (found: bool)
        ensures
            found == names(self@, id),
    {
        let mut i: usize = 0;
        while i < self.0.len()
            invariant
                i <= self@.len(),
                forall|j: int| 0 <= j < i ==> self@[j].id != id,
            decreases self@.len() - i,
        {
            if self.0[i].id == id {
                return true;
            }
            i += 1;
        }
        false
    }

    /// The distance in bytes from the start of an entity to its component
    /// number `index`, or to the end of the last one if there are fewer; an
    /// entity of no bytes counts as one byte.
    pub fn offset_of(&self, index: usize) -> (offset: usize)
        ensures
            offset == self.spec_offset_of(index),
            offset >= 1,
    {
        proof {
            use_type_invariant(self);
        }
        let count = if index <= self.0.len() {
            index
        } else {
            self.0.len()
        };
        let mut sum: usize = 0;
        let mut i: usize = 0;
        while i < count
            invariant
                i <= count <= self@.len(),
                sum == total(self@.take(i as int)),
                total(self@) <= usize::MAX,
            decreases count - i,
        {
            proof {
                lemma_total_of_prefix(self@, i as int);
                lemma_total_of_prefix(self@, i + 1);
            }
            sum = sum + self.0[i].size;
            i += 1;
        }
        if sum == 0 {
            1
        } else {
            sum
        }
    }

    /// Adds `meta` behind the component types that are there.
    pub fn push(&mut self, meta: Meta)
        requires
            old(self)@.len() < Self::MAX,
            total(old(self)@) + meta.size <= usize::MAX,
        ensures
            final(self)@ == old(self)@.push(meta),
    {
        let mut metas: Vec<Meta> = Vec::new();
        std::mem::swap(&mut metas, &mut self.0);
        metas.push(meta);
        proof {
            assert(metas@.drop_last() =~= old(self)@);
        }
        std::mem::swap(&mut metas, &mut self.0);
    }

    /// Adds the component types of `archetype` that are not there yet, each
    /// once and in their order.
    pub fn merge(&mut self, archetype: Archetype)
        requires
            merged(old(self)@, archetype@).len() <= Self::MAX,
            total(merged(old(self)@, archetype@)) <= usize::MAX,
        ensures
            final(self)@ == merged(old(self)@, archetype@),
    {
        let ghost whole = merged(self@, archetype@);
        let mut i: usize = 0;
        proof {
            assert(archetype@.subrange(0, archetype@.len() as int) =~= archetype@);
        }
        while i < archetype.0.len()
            invariant
                i <= archetype@.len(),
                merged(self@, archetype@.subrange(i as int, archetype@.len() as int)) == whole,
                whole.len() <= Self::MAX,
                total(whole) <= usize::MAX,
            decreases archetype@.len() - i,
        {
            let meta = archetype.0[i];
            let ghost rest = archetype@.subrange(i as int, archetype@.len() as int);
            proof {
                assert(rest.drop_first() =~= archetype@.subrange(
                    i + 1,
                    archetype@.len() as int,
                ));
                lemma_merged_extends(absorbed(self@, meta), rest.drop_first());
                lemma_merged_extends(self@, rest);
            }
            if !self.contains(&meta) {
                proof {
                    assert(self@.push(meta).drop_last() =~= self@);
                }
                self.push(meta);
            }
            i += 1;
        }
        proof {
            lemma_merged_extends(self@, Seq::<Meta>::empty());
        }
    }

    /// Whether every identity among the component types also occurs among
    /// those of `other`.
    pub fn within(&self, other: &Archetype) -> (all: bool)
        ensures
            all == within(self@, other@),
    {
        let mut i: usize = 0;
        while i < self.0.len()
            invariant
                i <= self@.len(),
                forall|j: int| 0 <= j < i ==> names(other@, #[trigger] self@[j].id),
            decreases self@.len() - i,
        {
            if !other.names(self.0[i].id) {
                return false;
            }
            i += 1;
        }
        true
    }
}

impl Clone for Archetype {
    fn clone(&self) -> (copy: Self)
        ensures
            copy@ == self@,
    {
        proof {
            use_type_invariant(self);
        }
        let mut metas: Vec<Meta> = Vec::new();
        let mut i: usize = 0;
        while i < self.0.len()
            invariant
                i <= self.0@.len(),
                metas@ == self.0@.take(i as int),
            decreases self.0@.len() - i,
        {
            metas.push(self.0[i]);
            i += 1;
        }
        proof {
            assert(metas@ =~= self.0@);
        }
        Archetype(metas)
    }
}

impl Default for Archetype {
    fn default() -> (archetype: Self)
        ensures
            archetype@ == Seq::<Meta>::empty(),
    {
        Archetype::new()
    }
}

impl PartialEq for Archetype {
    fn eq(&self, other: &Self) -> (equal: bool) {
        if self.0.len() != other.0.len() {
            return false;
        }
        let mut i: usize = 0;
        while i < self.0.len()
            invariant
                i <= self@.len(),
                self@.len() == other@.len(),
                forall|j: int| 0 <= j < i ==> self@[j] == other@[j],
            decreases self@.len() - i,
        {
            if self.0[i] != other.0[i] {
                return false;
            }
            i += 1;
        }
        proof {
            assert(self@ =~= other@);
        }
        true
    }
}

impl PartialEqSpecImpl for Archetype {
    open spec fn obeys_eq_spec() -> bool {
        true
    }

    open spec fn eq_spec(&self, other: &Self) -> bool {
        self@ == other@
    }
}

impl Eq for Archetype {
}

impl PartialOrd for Archetype {
    /// `Equal` for the same component types in the same order; otherwise
    /// `Greater` if every identity of `self` occurs in `other`, and `Less` if
    /// one does not.
    fn partial_cmp(&self, other: &Self) -> (order: Option<Ordering>) {
        if self == other {
            return Some(Ordering::Equal);
        }
        Some(
            if self.within(other) {
                Ordering::Greater
            } else {
                Ordering::Less
            },
        )
    }
}

impl PartialOrdSpecImpl for Archetype {
    open spec fn obeys_partial_cmp_spec() -> bool {
        true
    }

    open spec fn partial_cmp_spec(&self, other: &Self) -> Option<Ordering> {
        if self@ == other@ {
            Some(Ordering::Equal)
        } else if within(self@, other@) {
            Some(Ordering::Greater)
        } else {
            Some(Ordering::Less)
        }
    }
}

} // verus!
