//! The typing context: a finite mapping from variable names to types, the
//! single piece of state that statement checking threads and mutates.
//!
//! The context is stored as a vector of bindings with pairwise-distinct
//! names and is viewed, through `View`, as a `Map<Seq<char>, ExType>`.
//! Insertion order is irrelevant at the level of the view.

use vstd::prelude::*;

use crate::ast::ExType;

verus! {

/// One entry of a typing context: a variable name and its recorded type.
pub struct Binding {
    pub name: String,
    pub ty: ExType,
}

/// The mapping that a sequence of bindings denotes; later bindings win,
/// though a well-formed context never holds a name twice.
pub open spec fn map_of(s: Seq<Binding>) -> Map<Seq<char>, ExType>
    decreases s.len(),
{
    if s.len() == 0 {
        Map::empty()
    } else {
        map_of(s.drop_last()).insert(s.last().name@, s.last().ty)
    }
}

/// Pairwise distinctness of the bound names.
pub open spec fn distinct_names(s: Seq<Binding>) -> bool {
    forall|i: int, j: int| 0 <= i < j < s.len() ==> s[i].name@ != s[j].name@
}

/// A typing context.  Its view is the name-to-type mapping it denotes.
pub struct TypeContext {
    pub bindings: Vec<Binding>,
}

impl View for TypeContext {
    type V = Map<Seq<char>, ExType>;

    open spec fn view(&self) -> Map<Seq<char>, ExType> {
        map_of(self.bindings@)
    }
}

/// A name of the mapping is exactly a name of some binding.
pub proof fn lemma_map_of_dom(s: Seq<Binding>)
    ensures
        forall|k: Seq<char>|
            #[trigger] map_of(s).dom().contains(k) <==> (exists|i: int|
                0 <= i < s.len() && s[i].name@ == k),
    decreases s.len(),
{
    if s.len() == 0 {
    } else {
        lemma_map_of_dom(s.drop_last());
        assert forall|k: Seq<char>| #[trigger]
            map_of(s).dom().contains(k) implies (exists|i: int|
            0 <= i < s.len() && s[i].name@ == k) by {
            if k == s.last().name@ {
                assert(s[s.len() - 1].name@ == k);
            } else {
                assert(map_of(s.drop_last()).dom().contains(k));
                let i = choose|i: int| 0 <= i < s.drop_last().len() && s.drop_last()[i].name@ == k;
                assert(s[i].name@ == k);
            }
        }
        assert forall|k: Seq<char>|
            (exists|i: int| 0 <= i < s.len() && s[i].name@ == k) implies #[trigger] map_of(
            s,
        ).dom().contains(k) by {
            let i = choose|i: int| 0 <= i < s.len() && s[i].name@ == k;
            if i == s.len() - 1 {
            } else {
                assert(s.drop_last()[i].name@ == k);
                assert(map_of(s.drop_last()).dom().contains(k));
            }
        }
    }
}

/// In a well-formed context each binding is reflected exactly in the view.
pub proof fn lemma_map_of_get(s: Seq<Binding>, i: int)
    requires
        distinct_names(s),
        0 <= i < s.len(),
    ensures
        map_of(s).dom().contains(s[i].name@),
        map_of(s)[s[i].name@] == s[i].ty,
    decreases s.len(),
{
    if i == s.len() - 1 {
    } else {
        assert(distinct_names(s.drop_last()));
        lemma_map_of_get(s.drop_last(), i);
        assert(s[i].name@ != s.last().name@);
    }
}

/// The forall form of `lemma_map_of_get`.
pub proof fn lemma_map_of_entries(s: Seq<Binding>)
    requires
        distinct_names(s),
    ensures
        forall|i: int| 0 <= i < s.len() ==> map_of(s).dom().contains(#[trigger] s[i].name@),
        forall|i: int| 0 <= i < s.len() ==> map_of(s)[#[trigger] s[i].name@] == s[i].ty,
{
    assert forall|i: int| 0 <= i < s.len() implies map_of(s).dom().contains(
        #[trigger] s[i].name@,
    ) && map_of(s)[s[i].name@] == s[i].ty by {
        lemma_map_of_get(s, i);
    }
}

/// Appending a fresh binding inserts it into the view.
pub proof fn lemma_map_of_push(s: Seq<Binding>, b: Binding)
    ensures
        map_of(s.push(b)) == map_of(s).insert(b.name@, b.ty),
{
    assert(s.push(b).drop_last() =~= s);
    assert(s.push(b).last() == b);
}

/// Overwriting a binding in place updates its name in the view.
pub proof fn lemma_map_of_update(s: Seq<Binding>, i: int, b: Binding)
    requires
        distinct_names(s),
        0 <= i < s.len(),
        b.name@ == s[i].name@,
    ensures
        map_of(s.update(i, b)) == map_of(s).insert(b.name@, b.ty),
        distinct_names(s.update(i, b)),
    decreases s.len(),
{
    assert(distinct_names(s.update(i, b)));
    if i == s.len() - 1 {
        assert(s.update(i, b).drop_last() =~= s.drop_last());
        assert(s.update(i, b).last() == b);
        assert(map_of(s.drop_last()).insert(s.last().name@, s.last().ty).insert(b.name@, b.ty)
            =~= map_of(s.drop_last()).insert(b.name@, b.ty));
    } else {
        assert(distinct_names(s.drop_last()));
        lemma_map_of_update(s.drop_last(), i, b);
        assert(s.update(i, b).drop_last() =~= s.drop_last().update(i, b));
        assert(s.update(i, b).last() == s.last());
        assert(s.last().name@ != b.name@);
        assert(map_of(s.drop_last()).insert(b.name@, b.ty).insert(s.last().name@, s.last().ty)
            =~= map_of(s.drop_last()).insert(s.last().name@, s.last().ty).insert(b.name@, b.ty));
    }
}

/// Bindings that agree pointwise on name text and type denote one mapping.
pub proof fn lemma_map_of_congruence(s1: Seq<Binding>, s2: Seq<Binding>)
    requires
        s1.len() == s2.len(),
        forall|i: int| 0 <= i < s1.len() ==> (#[trigger] s1[i]).name@ == s2[i].name@,
        forall|i: int| 0 <= i < s1.len() ==> (#[trigger] s1[i]).ty == s2[i].ty,
    ensures
        map_of(s1) == map_of(s2),
        distinct_names(s1) == distinct_names(s2),
    decreases s1.len(),
{
    if s1.len() == 0 {
    } else {
        assert forall|i: int|
            0 <= i < s1.drop_last().len() implies (#[trigger] s1.drop_last()[i]).name@
            == s2.drop_last()[i].name@ && s1.drop_last()[i].ty == s2.drop_last()[i].ty by {
            assert(s1.drop_last()[i] == s1[i]);
            assert(s2.drop_last()[i] == s2[i]);
        }
        lemma_map_of_congruence(s1.drop_last(), s2.drop_last());
        assert(s1[s1.len() - 1].name@ == s2[s1.len() - 1].name@);
    }
    if distinct_names(s1) {
        assert forall|i: int, j: int| 0 <= i < j < s2.len() implies s2[i].name@ != s2[j].name@ by {
            assert(s1[i].name@ == s2[i].name@);
            assert(s1[j].name@ == s2[j].name@);
        }
    }
    if distinct_names(s2) {
        assert forall|i: int, j: int| 0 <= i < j < s1.len() implies s1[i].name@ != s1[j].name@ by {
            assert(s1[i].name@ == s2[i].name@);
            assert(s1[j].name@ == s2[j].name@);
        }
    }
}

impl TypeContext {
    /// Well-formedness: no name is bound twice.
    pub open spec fn wf(&self) -> bool {
        distinct_names(self.bindings@)
    }

    /// The empty context.
    pub fn new() -> (r: TypeContext)
        ensures
            r@ == Map::<Seq<char>, ExType>::empty(),
            r.wf(),
    {
        TypeContext { bindings: Vec::new() }
    }

    /// The index of the binding for `name`, if there is one.
    fn position_of(&self, name: &String) -> (r: Option<usize>)
        ensures
            match r {
                Some(i) => i < self.bindings@.len() && self.bindings@[i as int].name@ == name@,
                None => forall|j: int|
                    0 <= j < self.bindings@.len() ==> self.bindings@[j].name@ != name@,
            },
    {
        let mut i: usize = 0;
        while i < self.bindings.len()
            invariant
                i <= self.bindings@.len(),
                forall|j: int| 0 <= j < i ==> self.bindings@[j].name@ != name@,
            decreases self.bindings@.len() - i,
        {
            if self.bindings[i].name == *name {
                return Some(i);
            }
            i = i + 1;
        }
        None
    }

    /// Whether `name` is bound.
    pub fn contains_key(&self, name: &String) -> (r: bool)
        ensures
            r == self@.dom().contains(name@),
    {
        proof {
            lemma_map_of_dom(self.bindings@);
        }
        match self.position_of(name) {
            Some(i) => {
                proof {
                    assert(exists|j: int|
                        0 <= j < self.bindings@.len() && self.bindings@[j].name@ == name@) by {
                        assert(self.bindings@[i as int].name@ == name@);
                    }
                }
                true
            },
            None => false,
        }
    }

    /// The recorded type of `name`, if it is bound.
    pub fn get(&self, name: &String) -> (r: Option<ExType>)
        requires
            self.wf(),
        ensures
            r is Some <==> self@.dom().contains(name@),
            r matches Some(t) ==> self@[name@] == t,
    {
        proof {
            lemma_map_of_dom(self.bindings@);
        }
        match self.position_of(name) {
            Some(i) => {
                proof {
                    lemma_map_of_get(self.bindings@, i as int);
                }
                Some(self.bindings[i].ty)
            },
            None => None,
        }
    }

    /// Binds `name` to `ty`, replacing any earlier binding of `name`.
    pub fn insert(&mut self, name: String, ty: ExType)
        requires
            old(self).wf(),
        ensures
            final(self).wf(),
            final(self)@ == old(self)@.insert(name@, ty),
    {
        let ghost pre = self.bindings@;
        match self.position_of(&name) {
            Some(i) => {
                let b = Binding { name, ty };
                self.bindings[i] = b;
                proof {
                    lemma_map_of_update(pre, i as int, b);
                }
            },
            None => {
                let b = Binding { name, ty };
                self.bindings.push(b);
                proof {
                    lemma_map_of_push(pre, b);
                    assert(distinct_names(self.bindings@));
                }
            },
        }
    }

    /// Whether two contexts denote the same mapping.
    #[verifier::loop_isolation(false)]
    pub fn same_entries(&self, other: &TypeContext) -> (r: bool)
        requires
            self.wf(),
            other.wf(),
        ensures
            r == (self@ == other@),
    {
        proof {
            lemma_map_of_dom(self.bindings@);
            lemma_map_of_dom(other.bindings@);
            lemma_map_of_entries(self.bindings@);
            lemma_map_of_entries(other.bindings@);
        }
        let mut i: usize = 0;
        while i < self.bindings.len()
            invariant
                i <= self.bindings@.len(),
                forall|j: int|
                    0 <= j < i ==> other@.dom().contains((#[trigger] self.bindings@[j]).name@)
                        && other@[self.bindings@[j].name@] == self.bindings@[j].ty,
            decreases self.bindings@.len() - i,
        {
            match other.get(&self.bindings[i].name) {
                Some(t) => {
                    proof {
                        let k = self.bindings@[i as int].name@;
                        assert(other@.dom().contains(k) && other@[k] == t);
                    }
                    if !(t == self.bindings[i].ty) {
                        proof {
                            let k = self.bindings@[i as int].name@;
                            assert(self@.dom().contains(k) && self@[k] == self.bindings@[i as int].ty);
                            assert(self@[k] != other@[k]);
                        }
                        return false;
                    }
                },
                None => {
                    proof {
                        let k = self.bindings@[i as int].name@;
                        assert(self@.dom().contains(k));
                        assert(!other@.dom().contains(k));
                    }
                    return false;
                },
            }
            i = i + 1;
        }
        let mut j: usize = 0;
        while j < other.bindings.len()
            invariant
                j <= other.bindings@.len(),
                forall|p: int|
                    0 <= p < self.bindings@.len() ==> other@.dom().contains(
                        (#[trigger] self.bindings@[p]).name@,
                    ) && other@[self.bindings@[p].name@] == self.bindings@[p].ty,
                forall|q: int|
                    0 <= q < j ==> self@.dom().contains((#[trigger] other.bindings@[q]).name@),
            decreases other.bindings@.len() - j,
        {
            if !self.contains_key(&other.bindings[j].name) {
                proof {
                    let k = other.bindings@[j as int].name@;
                    assert(other@.dom().contains(k) && !self@.dom().contains(k));
                }
                return false;
            }
            j = j + 1;
        }
        proof {
            assert forall|k: Seq<char>| #[trigger]
                self@.dom().contains(k) implies other@.dom().contains(k) && other@[k]
                == self@[k] by {
                let p = choose|p: int|
                    0 <= p < self.bindings@.len() && self.bindings@[p].name@ == k;
                assert(other@.dom().contains(self.bindings@[p].name@));
            }
            assert forall|k: Seq<char>| #[trigger]
                other@.dom().contains(k) implies self@.dom().contains(k) by {
                let q = choose|q: int|
                    0 <= q < other.bindings@.len() && other.bindings@[q].name@ == k;
                assert(self@.dom().contains(other.bindings@[q].name@));
            }
            assert(self@ =~= other@);
        }
        true
    }
}

impl Clone for TypeContext {
    /// An independent copy that denotes the same mapping.
    fn clone(&self) -> (r: Self)
        ensures
            r@ == self@,
            r.wf() == self.wf(),
    {
        let mut copied: Vec<Binding> = Vec::new();
        let mut i: usize = 0;
        while i < self.bindings.len()
            invariant
                i <= self.bindings@.len(),
                copied@.len() == i,
                forall|j: int| 0 <= j < i ==> (#[trigger] copied@[j]).name@ == self.bindings@[j].name@,
                forall|j: int| 0 <= j < i ==> (#[trigger] copied@[j]).ty == self.bindings@[j].ty,
            decreases self.bindings@.len() - i,
        {
            let b = Binding { name: self.bindings[i].name.clone(), ty: self.bindings[i].ty };
            copied.push(b);
            i = i + 1;
        }
        let r = TypeContext { bindings: copied };
        proof {
            lemma_map_of_congruence(self.bindings@, r.bindings@);
        }
        r
    }
}

} // verus!
