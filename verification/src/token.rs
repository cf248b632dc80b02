//! Wake identifiers and the filter a future uses to skip children that cannot
//! have made progress.

use vstd::prelude::*;

verus! {

/// The mathematical value of a [`Tokens`]: either "no information" (every
/// identifier may be concerned) or a finite set of wake identifiers.
pub enum TokenSet {
    /// Every identifier; the value a driver passes when it knows nothing.
    All,
    /// Exactly these identifiers.
    Only(Set<usize>),
}

impl TokenSet {
    /// Whether `id` belongs to the set.
    pub open spec fn contains(self, id: usize) -> bool {
        match self {
            TokenSet::All => true,
            TokenSet::Only(ids) => ids.contains(id),
        }
    }

    /// The set as a plain set of identifiers.
    pub open spec fn ids(self) -> Set<usize> {
        match self {
            TokenSet::All => Set::full(),
            TokenSet::Only(ids) => ids,
        }
    }

    /// Union; `All` absorbs.
    pub open spec fn union(self, other: TokenSet) -> TokenSet {
        match (self, other) {
            (TokenSet::Only(a), TokenSet::Only(b)) => TokenSet::Only(a.union(b)),
            _ => TokenSet::All,
        }
    }

    /// Intersection of two known sets. When either side carries no
    /// information the result carries none either, so `All` absorbs here too.
    pub open spec fn intersect(self, other: TokenSet) -> TokenSet {
        match (self, other) {
            (TokenSet::Only(a), TokenSet::Only(b)) => TokenSet::Only(a.intersect(b)),
            _ => TokenSet::All,
        }
    }

    /// The conservative intersection test: true as soon as either side is
    /// `All`, otherwise true exactly when the two sets share an identifier.
    pub open spec fn may_contain(self, other: TokenSet) -> bool {
        self is All || other is All || exists|id: usize|
            self.contains(id) && other.contains(id)
    }

    /// Every identifier of `other` is one of `self`.
    pub open spec fn covers(self, other: TokenSet) -> bool {
        forall|id: usize| other.contains(id) ==> self.contains(id)
    }
}

/// A set of wake identifiers.
pub struct Tokens {
    all: bool,
    ids: Vec<usize>,
}

impl View for Tokens {
    type V = TokenSet;

    closed spec fn view(&self) -> TokenSet {
        if self.all {
            TokenSet::All
        } else {
            TokenSet::Only(self.ids@.to_set())
        }
    }
}

fn holds(ids: &Vec<usize>, id: usize) -> (found: bool)
    ensures
        found == ids@.contains(id),
{
    let mut i: usize = 0;
    while i < ids.len()
        invariant
            i <= ids.len(),
            forall|k: int| 0 <= k < i ==> ids@[k] != id,
        decreases ids.len() - i,
    {
        if ids[i] == id {
            return true;
        }
        i += 1;
    }
    false
}

fn append(into: &mut Vec<usize>, from: &Vec<usize>)
    ensures
        final(into)@ == old(into)@ + from@,
{
    let mut i: usize = 0;
    while i < from.len()
        invariant
            i <= from.len(),
            into@ == old(into)@ + from@.subrange(0, i as int),
        decreases from.len() - i,
    {
        into.push(from[i]);
        assert(into@ =~= old(into)@ + from@.subrange(0, i + 1));
        i += 1;
    }
    assert(from@.subrange(0, from.len() as int) =~= from@);
}

impl Tokens {
    /// The set that stands for "no information": every identifier.
    pub fn all() -> (t: Tokens)
        ensures
            t@ == TokenSet::All,
    {
        Tokens { all: true, ids: Vec::new() }
    }

    /// The set holding `id` alone.
    pub fn from_id(id: usize) -> (t: Tokens)
        ensures
            t@ == TokenSet::Only(set![id]),
    {
        let mut ids: Vec<usize> = Vec::new();
        ids.push(id);
        assert(ids@.to_set() =~= set![id]) by {
            assert(ids@[0] == id);
        }
        Tokens { all: false, ids }
    }

    /// A copy of this set.
    pub fn duplicate(&self) -> (t: Tokens)
        ensures
            t@ == self@,
    {
        let mut ids: Vec<usize> = Vec::new();
        append(&mut ids, &self.ids);
        assert(ids@ =~= self.ids@);
        Tokens { all: self.all, ids }
    }

    /// Union of the two sets.
    pub fn union(&self, other: &Tokens) -> (t: Tokens)
        ensures
            t@ == self@.union(other@),
    {
        if self.all || other.all {
            return Tokens::all();
        }
        let mut ids: Vec<usize> = Vec::new();
        append(&mut ids, &self.ids);
        append(&mut ids, &other.ids);
        assert(ids@.to_set() =~= self.ids@.to_set().union(other.ids@.to_set())) by {
            assert(ids@ =~= self.ids@ + other.ids@);
            assert forall|x: usize| ids@.contains(x) <==> (self.ids@.contains(x)
                || other.ids@.contains(x)) by {
                if self.ids@.contains(x) {
                    let k = choose|k: int| 0 <= k < self.ids@.len() && self.ids@[k] == x;
                    assert(ids@[k] == x);
                }
                if other.ids@.contains(x) {
                    let k = choose|k: int| 0 <= k < other.ids@.len() && other.ids@[k] == x;
                    assert(ids@[self.ids@.len() + k] == x);
                }
            }
        }
        Tokens { all: false, ids }
    }

    /// Intersection of the two sets; `all` on either side gives `all`.
    pub fn intersect(&self, other: &Tokens) -> (t: Tokens)
        ensures
            t@ == self@.intersect(other@),
    {
        if self.all || other.all {
            return Tokens::all();
        }
        let mut ids: Vec<usize> = Vec::new();
        let mut i: usize = 0;
        while i < self.ids.len()
            invariant
                i <= self.ids.len(),
                forall|x: usize|
                    ids@.contains(x) <==> (self.ids@.subrange(0, i as int).contains(x)
                        && other.ids@.contains(x)),
            decreases self.ids.len() - i,
        {
            let id = self.ids[i];
            let ghost before = ids@;
            let keep = holds(&other.ids, id);
            if keep {
                ids.push(id);
            }
            assert forall|x: usize|
                ids@.contains(x) <==> (self.ids@.subrange(0, i + 1).contains(x)
                    && other.ids@.contains(x)) by {
                let head = self.ids@.subrange(0, i as int);
                let grown = self.ids@.subrange(0, i + 1);
                assert(grown =~= head.push(id));
                assert(grown[i as int] == id);
                if head.contains(x) {
                    let k = choose|k: int| 0 <= k < head.len() && head[k] == x;
                    assert(grown[k] == x);
                }
                if keep {
                    assert(ids@ =~= before.push(id));
                    assert(ids@[before.len() as int] == id);
                    if before.contains(x) {
                        let k = choose|k: int| 0 <= k < before.len() && before[k] == x;
                        assert(ids@[k] == x);
                    }
                }
            }
            i += 1;
        }
        assert(self.ids@.subrange(0, self.ids.len() as int) =~= self.ids@);
        assert(ids@.to_set() =~= self.ids@.to_set().intersect(other.ids@.to_set()));
        Tokens { all: false, ids }
    }

    /// Whether the two sets may share an identifier. The answer errs only
    /// towards `true`: a `false` means the sets are disjoint.
    pub fn may_contain(&self, other: &Tokens) -> (shared: bool)
        ensures
            shared == self@.may_contain(other@),
            !shared ==> self@.ids().disjoint(other@.ids()),
    {
        if self.all || other.all {
            return true;
        }
        let mut i: usize = 0;
        while i < self.ids.len()
            invariant
                !self.all,
                !other.all,
                i <= self.ids.len(),
                forall|k: int| 0 <= k < i ==> !other.ids@.contains(#[trigger] self.ids@[k]),
            decreases self.ids.len() - i,
        {
            let id = self.ids[i];
            if holds(&other.ids, id) {
                assert(self.ids@[i as int] == id);
                assert(self.ids@.contains(id));
                assert(self.ids@.to_set().contains(id) && other.ids@.to_set().contains(id));
                assert(self@.contains(id) && other@.contains(id));
                return true;
            }
            i += 1;
        }
        assert forall|id: usize| !(self@.contains(id) && other@.contains(id)) by {
            if self.ids@.contains(id) {
                let k = choose|k: int| 0 <= k < self.ids@.len() && self.ids@[k] == id;
                assert(!other.ids@.contains(self.ids@[k]));
            }
        }
        false
    }
}

/// A negative answer of the conservative test means the two sets have no
/// identifier in common.
pub proof fn lemma_filter_is_conservative(a: TokenSet, b: TokenSet)
    requires
        !a.may_contain(b),
    ensures
        a.ids().disjoint(b.ids()),
        forall|id: usize| !(a.contains(id) && b.contains(id)),
{
    assert forall|id: usize| !(a.contains(id) && b.contains(id)) by {}
    assert forall|id: usize| !(a.ids().contains(id) && b.ids().contains(id)) by {
        assert(!(a.contains(id) && b.contains(id)));
    }
}

/// A union covers both of its operands.
pub proof fn lemma_union_covers(a: TokenSet, b: TokenSet)
    ensures
        a.union(b).covers(a),
        a.union(b).covers(b),
{
}

} // verus!
