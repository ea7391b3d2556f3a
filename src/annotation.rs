use std::rc::Rc;
use std::sync::Arc;
use vstd::prelude::*;

verus! {

/// Annotation over a child.
///
/// An implementation derives the annotation from exactly one level of the
/// child; nested [`crate::Annotated`] values inside the child contribute
/// through their own cached annotations.
pub trait Annotation<C>: Sized {
    /// The annotation that `from_child` derives from `child`: a function of
    /// the child's value alone.
    spec fn spec_from_child(child: &C) -> Self;

    /// Compute the annotation from the child.
    fn from_child(t: &C) -> (r: Self)
        ensures
            r == Self::spec_from_child(t),
    ;
}

impl<'a, C, A: Annotation<C>> Annotation<&'a C> for A {
    open spec fn spec_from_child(child: &&'a C) -> A {
        <A as Annotation<C>>::spec_from_child(*child)
    }

    fn from_child(t: &&'a C) -> (r: A) {
        <A as Annotation<C>>::from_child(*t)
    }
}

impl<'a, C, A: Annotation<C>> Annotation<&'a mut C> for A {
    open spec fn spec_from_child(child: &&'a mut C) -> A {
        <A as Annotation<C>>::spec_from_child(&**child)
    }

    fn from_child(t: &&'a mut C) -> (r: A) {
        <A as Annotation<C>>::from_child(&**t)
    }
}

impl<C, A: Annotation<C>> Annotation<Rc<C>> for A {
    open spec fn spec_from_child(child: &Rc<C>) -> A {
        <A as Annotation<C>>::spec_from_child(&**child)
    }

    fn from_child(t: &Rc<C>) -> (r: A) {
        <A as Annotation<C>>::from_child(&**t)
    }
}

impl<C, A: Annotation<C>> Annotation<Arc<C>> for A {
    open spec fn spec_from_child(child: &Arc<C>) -> A {
        <A as Annotation<C>>::spec_from_child(&**child)
    }

    fn from_child(t: &Arc<C>) -> (r: A) {
        <A as Annotation<C>>::from_child(&**t)
    }
}

impl<C, A: Annotation<C>> Annotation<Box<C>> for A {
    open spec fn spec_from_child(child: &Box<C>) -> A {
        <A as Annotation<C>>::spec_from_child(&**child)
    }

    fn from_child(t: &Box<C>) -> (r: A) {
        <A as Annotation<C>>::from_child(&**t)
    }
}

/// Deriving through a reference or an owning pointer gives the annotation of
/// the value behind it.
pub proof fn lemma_adapters_agree<C, A: Annotation<C>>(c: C)
    ensures
        <A as Annotation<&C>>::spec_from_child(&&c) == <A as Annotation<C>>::spec_from_child(&c),
        <A as Annotation<Rc<C>>>::spec_from_child(&Rc::new(c)) == <A as Annotation<C>>::spec_from_child(&c),
        <A as Annotation<Arc<C>>>::spec_from_child(&Arc::new(c)) == <A as Annotation<C>>::spec_from_child(&c),
        <A as Annotation<Box<C>>>::spec_from_child(&Box::new(c)) == <A as Annotation<C>>::spec_from_child(&c),
{
}

} // verus!
