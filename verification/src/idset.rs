//! A set of opaque string identifiers (task ids, file ids, peer ids), kept in
//! the order in which the identifiers were first added.

use vstd::prelude::*;

verus! {

/// The texts of a sequence of strings.
pub open spec fn texts(items: Seq<String>) -> Seq<Seq<char>> {
    Seq::new(items.len(), |i: int| items[i]@)
}

/// Removing one position of a sequence without duplicates removes exactly the
/// item at that position from the set of its items.
proof fn lemma_remove_position<A>(s: Seq<A>, i: int)
    requires
        s.no_duplicates(),
        0 <= i < s.len(),
    ensures
        s.remove(i).no_duplicates(),
        s.remove(i).to_set() == s.to_set().remove(s[i]),
{
    let r = s.remove(i);
    assert forall|a: A| r.to_set().contains(a) <==> s.to_set().remove(s[i]).contains(a) by {
        if r.contains(a) {
            let j = choose|j: int| 0 <= j < r.len() && r[j] == a;
            if j < i {
                assert(s[j] == a);
            } else {
                assert(s[j + 1] == a);
            }
        }
        if s.contains(a) && a != s[i] {
            let j = choose|j: int| 0 <= j < s.len() && s[j] == a;
            if j < i {
                assert(r[j] == a);
            } else {
                assert(r[j - 1] == a);
            }
        }
    }
    assert(r.to_set() =~= s.to_set().remove(s[i]));
}

/// Appending an item that a sequence without duplicates does not hold keeps it
/// free of duplicates and adds the item to the set of its items.
proof fn lemma_push_fresh<A>(s: Seq<A>, a: A)
    requires
        s.no_duplicates(),
        !s.contains(a),
    ensures
        s.push(a).no_duplicates(),
        s.push(a).to_set() == s.to_set().insert(a),
{
    let p = s.push(a);
    assert forall|i: int, j: int| 0 <= i < p.len() && 0 <= j < p.len() && i != j implies p[i]
        != p[j] by {
        if i < s.len() {
            assert(s.contains(p[i]));
        }
        if j < s.len() {
            assert(s.contains(p[j]));
        }
    }
    assert forall|x: A| p.to_set().contains(x) <==> s.to_set().insert(a).contains(x) by {
        if p.contains(x) {
            let j = choose|j: int| 0 <= j < p.len() && p[j] == x;
            if j < s.len() {
                assert(s[j] == x);
            }
        }
        if s.contains(x) {
            let j = choose|j: int| 0 <= j < s.len() && s[j] == x;
            assert(p[j] == x);
        }
        if x == a {
            assert(p[s.len() as int] == x);
        }
    }
    assert(p.to_set() =~= s.to_set().insert(a));
}

/// A finite set of identifiers.
pub struct IdSet {
    items: Vec<String>,
}

impl View for IdSet {
    type V = Set<Seq<char>>;

    /// The identifiers held.
    open spec fn view(&self) -> Set<Seq<char>> {
        self.order().to_set()
    }
}

impl IdSet {
    #[verifier::type_invariant]
    spec fn distinct(&self) -> bool {
        texts(self.items@).no_duplicates()
    }

    /// The identifiers held, each once, in the order in which they were added.
    pub closed spec fn order(&self) -> Seq<Seq<char>> {
        texts(self.items@)
    }

    /// The set is finite.
    pub proof fn lemma_finite(&self)
        ensures
            self@.finite(),
    {
        vstd::seq_lib::seq_to_set_is_finite(self.order());
    }

    /// The empty set.
    pub fn new() -> (r: IdSet)
        ensures
            r@ == Set::<Seq<char>>::empty(),
            r.order() == Seq::<Seq<char>>::empty(),
    {
        let r = IdSet { items: Vec::new() };
        assert(r.order() =~= Seq::<Seq<char>>::empty());
        assert(r@ =~= Set::<Seq<char>>::empty());
        r
    }

    /// The place of an identifier in the order, if it is held.
    fn position(&self, id: &str) -> (r: Option<usize>)
        ensures
            match r {
                Some(i) => i < self.order().len() && self.order()[i as int] == id@,
                None => !self.order().contains(id@),
            },
            self.order().no_duplicates(),
    {
        proof {
            use_type_invariant(self);
        }
        let wanted = id.to_owned();
        let mut i: usize = 0;
        while i < self.items.len()
            invariant
                i <= self.items.len(),
                wanted@ == id@,
                self.order().no_duplicates(),
                forall|j: int| 0 <= j < i ==> self.order()[j] != id@,
            decreases self.items.len() - i,
        {
            if self.items[i] == wanted {
                return Some(i);
            }
            i += 1;
        }
        None
    }

    /// Whether the identifier is held.
    pub fn contains(&self, id: &str) -> (r: bool)
        ensures
            r == self@.contains(id@),
    {
        self.position(id).is_some()
    }

    /// The number of identifiers held.
    pub fn len(&self) -> (r: usize)
        ensures
            self@.finite(),
            r == self@.len(),
            r == self.order().len(),
            self.order().no_duplicates(),
    {
        proof {
            use_type_invariant(self);
            self.order().unique_seq_to_set();
            self.lemma_finite();
        }
        self.items.len()
    }

    /// Adds an identifier. Returns whether it was new; one already held stays
    /// where it is.
    pub fn insert(&mut self, id: &str) -> (r: bool)
        ensures
            r == !old(self)@.contains(id@),
            final(self)@ == old(self)@.insert(id@),
            final(self).order() == if r {
                old(self).order().push(id@)
            } else {
                old(self).order()
            },
    {
        match self.position(id) {
            Some(_) => {
                assert(self@ =~= self@.insert(id@));
                false
            },
            None => {
                proof {
                    lemma_push_fresh(self.order(), id@);
                }
                let ghost before = self.order();
                // The list is taken out while it grows: the set itself is
                // never seen half changed.
                let mut items: Vec<String> = Vec::new();
                std::mem::swap(&mut self.items, &mut items);
                items.push(id.to_owned());
                assert(texts(items@) =~= before.push(id@));
                std::mem::swap(&mut self.items, &mut items);
                true
            },
        }
    }

    /// Removes an identifier. Returns whether it was held; the others keep
    /// their order.
    pub fn remove(&mut self, id: &str) -> (r: bool)
        ensures
            r == old(self)@.contains(id@),
            final(self)@ == old(self)@.remove(id@),
            final(self).order() == if r {
                old(self).order().remove(old(self).order().index_of(id@))
            } else {
                old(self).order()
            },
    {
        match self.position(id) {
            Some(i) => {
                let ghost before = self.order();
                proof {
                    lemma_remove_position(before, i as int);
                    let k = before.index_of(id@);
                    assert(before.contains(id@));
                    assert(k == i);
                }
                let mut items: Vec<String> = Vec::new();
                std::mem::swap(&mut self.items, &mut items);
                items.remove(i);
                assert(texts(items@) =~= before.remove(i as int));
                std::mem::swap(&mut self.items, &mut items);
                true
            },
            None => {
                assert(self@ =~= self@.remove(id@));
                false
            },
        }
    }

    /// The identifiers held, in the order in which they were added.
    pub fn to_vec(&self) -> (r: Vec<String>)
        ensures
            texts(r@) == self.order(),
    {
        let mut out: Vec<String> = Vec::new();
        let mut i: usize = 0;
        while i < self.items.len()
            invariant
                i <= self.items.len(),
                out@.len() == i,
                forall|j: int| 0 <= j < i ==> out@[j]@ == self.items@[j]@,
            decreases self.items.len() - i,
        {
            out.push(self.items[i].clone());
            i += 1;
        }
        assert(texts(out@) =~= self.order());
        out
    }
}

} // verus!
