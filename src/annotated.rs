use std::rc::Rc;
use vstd::cell::invcell::InvCell;
use vstd::predicate::Predicate;
use vstd::prelude::*;

use crate::annotation::Annotation;

verus! {

/// What the cache slot of an [`Annotated`] may hold: nothing, or the
/// annotation derived from the child it was created for.
struct CacheSlotInv<A> {
    expected: A,
}

impl<A> Predicate<Option<Rc<A>>> for CacheSlotInv<A> {
    closed spec fn predicate(&self, v: Option<Rc<A>>) -> bool {
        match v {
            Some(a) => *a == self.expected,
            None => true,
        }
    }
}

/// A child annotated with some metadata.
///
/// Annotations are computed lazily, when [`Annotated::anno`] is first asked
/// for them, and kept until the child is handed out for mutation.
pub struct Annotated<C, A> {
    child: C,
    anno: InvCell<Option<Rc<A>>, CacheSlotInv<A>>,
}

impl<C, A> Annotated<C, A> {
    /// The child held by the container.
    pub closed spec fn spec_child(&self) -> C {
        self.child
    }

    /// Returns a reference to the child.
    pub fn child(&self) -> (r: &C)
        ensures
            *r == self.spec_child(),
    {
        &self.child
    }
}

impl<C, A: Annotation<C>> Annotated<C, A> {
    /// The cache slot only ever holds the annotation of the current child.
    pub closed spec fn wf(&self) -> bool {
        self.anno.predicate().expected == A::spec_from_child(&self.child)
    }

    /// The annotation of the current child.
    pub open spec fn spec_anno(&self) -> A {
        A::spec_from_child(&self.spec_child())
    }

    /// Create a new annotation over a child, with an empty cache.
    pub fn new(child: C) -> (r: Self)
        ensures
            r.spec_child() == child,
            r.wf(),
    {
        let ghost expected = A::spec_from_child(&child);
        Self { anno: InvCell::new(None, Ghost(CacheSlotInv { expected })), child }
    }

    /// Clears the cache and returns a mutable reference to the child.
    ///
    /// The cache is emptied before the child can change, so the next call
    /// of [`Annotated::anno`] derives the annotation afresh.
    pub fn child_mut(&mut self) -> (r: AnnotatedRefMut<'_, C, A>)
        ensures
            r.annotated.spec_child() == old(self).spec_child(),
            r.annotated.wf(),
            *final(self) == *final(r.annotated),
    {
        let ghost expected = A::spec_from_child(&self.child);
        self.anno = InvCell::new(None, Ghost(CacheSlotInv { expected }));
        AnnotatedRefMut { annotated: self }
    }

    /// Consume the container and return the child and the annotation, if it
    /// was already computed. Nothing is computed here.
    pub fn split(self) -> (r: (C, Option<Rc<A>>))
        ensures
            r.0 == self.spec_child(),
            self.wf() ==> (r.1 matches Some(a) ==> *a == self.spec_anno()),
    {
        let Annotated { child, anno } = self;
        (child, anno.into_inner())
    }

    /// Returns the annotation of the child, computing and caching it if the
    /// cache is empty.
    pub fn anno(&self) -> (r: Rc<A>)
        requires
            self.wf(),
        ensures
            *r == self.spec_anno(),
    {
        match self.anno.replace(None) {
            Some(a) => {
                let r = a.clone();
                self.anno.replace(Some(a));
                r
            },
            None => {
                let a = Rc::new(A::from_child(&self.child));
                let r = a.clone();
                self.anno.replace(Some(a));
                r
            },
        }
    }
}

impl<C: Default, A: Annotation<C>> Default for Annotated<C, A> {
    /// A container over the default child, with an empty cache.
    fn default() -> (r: Self)
        ensures
            call_ensures(C::default, (), r.spec_child()),
            r.wf(),
    {
        Self::new(C::default())
    }
}

impl<C: Clone, A: Annotation<C>> Clone for Annotated<C, A> {
    /// A container over a clone of the child, with an empty cache: a cached
    /// annotation is never shared with the copy.
    fn clone(&self) -> (r: Self)
        ensures
            cloned(self.spec_child(), r.spec_child()),
            r.wf(),
    {
        Self::new(self.child.clone())
    }
}

impl<C: PartialEq, A> PartialEq for Annotated<C, A> {
    /// Containers are equal when their children are; annotations are
    /// derived data and take no part.
    fn eq(&self, other: &Self) -> (r: bool) {
        self.child.eq(&other.child)
    }
}

impl<C: PartialEq, A> vstd::std_specs::cmp::PartialEqSpecImpl for Annotated<C, A> {
    open spec fn obeys_eq_spec() -> bool {
        <C as vstd::std_specs::cmp::PartialEqSpec>::obeys_eq_spec()
    }

    open spec fn eq_spec(&self, other: &Self) -> bool {
        <C as vstd::std_specs::cmp::PartialEqSpec>::eq_spec(&self.spec_child(), &other.spec_child())
    }
}

impl<C: Eq, A> Eq for Annotated<C, A> {

}

impl<C: PartialOrd, A> PartialOrd for Annotated<C, A> {
    /// Containers are ordered as their children are.
    fn partial_cmp(&self, other: &Self) -> (r: Option<std::cmp::Ordering>) {
        self.child.partial_cmp(&other.child)
    }
}

impl<C: PartialOrd, A> vstd::std_specs::cmp::PartialOrdSpecImpl for Annotated<C, A> {
    open spec fn obeys_partial_cmp_spec() -> bool {
        <C as vstd::std_specs::cmp::PartialOrdSpec>::obeys_partial_cmp_spec()
    }

    open spec fn partial_cmp_spec(&self, other: &Self) -> Option<std::cmp::Ordering> {
        <C as vstd::std_specs::cmp::PartialOrdSpec>::partial_cmp_spec(
            &self.spec_child(),
            &other.spec_child(),
        )
    }
}

impl<C, A: Annotation<C>> From<C> for Annotated<C, A> {
    /// A container over `elem`, with an empty cache.
    fn from(elem: C) -> (r: Self)
        ensures
            r.spec_child() == elem,
            r.wf(),
    {
        Self::new(elem)
    }
}

impl<C, A: Annotation<C>> vstd::std_specs::convert::FromSpecImpl<C> for Annotated<C, A> {
    /// A container is more than its child: its cache slot is a fresh cell,
    /// so no single value is the conversion of a child. `from` states what
    /// it returns in its own contract.
    open spec fn obeys_from_spec() -> bool {
        false
    }

    closed spec fn from_spec(v: C) -> Self {
        choose|r: Self| r.spec_child() == v && r.wf()
    }
}

/// A mutable reference to an annotated child.
///
/// The annotation of the container it came from was cleared when it was
/// made, so it is computed again on the next request.
pub struct AnnotatedRefMut<'a, C, A> {
    pub annotated: &'a mut Annotated<C, A>,
}

impl<'a, C, A> std::ops::Deref for AnnotatedRefMut<'a, C, A> {
    type Target = C;

    fn deref(&self) -> (r: &C)
        ensures
            *r == old(self.annotated).spec_child(),
    {
        &self.annotated.child
    }
}

impl<'a, C, A: Annotation<C>> std::ops::DerefMut for AnnotatedRefMut<'a, C, A> {
    fn deref_mut(&mut self) -> (r: &mut C)
        ensures
            *r == old(self).annotated.spec_child(),
            final(self).annotated.spec_child() == *final(r),
            old(self).annotated.wf() && A::spec_from_child(&*final(r))
                == old(self).annotated.spec_anno() ==> final(self).annotated.wf(),
    {
        &mut self.annotated.child
    }
}

/// Equality of containers ignores their caches: containers over the same
/// children compare alike whether or not their annotations were computed.
pub proof fn lemma_eq_ignores_cache<C: PartialEq, A>(
    a: Annotated<C, A>,
    b: Annotated<C, A>,
    a2: Annotated<C, A>,
    b2: Annotated<C, A>,
)
    requires
        a.spec_child() == a2.spec_child(),
        b.spec_child() == b2.spec_child(),
    ensures
        <Annotated<C, A> as vstd::std_specs::cmp::PartialEqSpec>::eq_spec(&a, &b)
            == <Annotated<C, A> as vstd::std_specs::cmp::PartialEqSpec>::eq_spec(&a2, &b2),
        <Annotated<C, A> as vstd::std_specs::cmp::PartialEqSpec>::eq_spec(&a, &b)
            == <C as vstd::std_specs::cmp::PartialEqSpec>::eq_spec(&a.spec_child(), &b.spec_child()),
{
}

/// Ordering of containers ignores their caches in the same way.
pub proof fn lemma_cmp_ignores_cache<C: PartialOrd, A>(
    a: Annotated<C, A>,
    b: Annotated<C, A>,
    a2: Annotated<C, A>,
    b2: Annotated<C, A>,
)
    requires
        a.spec_child() == a2.spec_child(),
        b.spec_child() == b2.spec_child(),
    ensures
        <Annotated<C, A> as vstd::std_specs::cmp::PartialOrdSpec>::partial_cmp_spec(&a, &b)
            == <Annotated<C, A> as vstd::std_specs::cmp::PartialOrdSpec>::partial_cmp_spec(&a2, &b2),
        <Annotated<C, A> as vstd::std_specs::cmp::PartialOrdSpec>::partial_cmp_spec(&a, &b)
            == <C as vstd::std_specs::cmp::PartialOrdSpec>::partial_cmp_spec(&a.spec_child(), &b.spec_child()),
{
}

} // verus!
