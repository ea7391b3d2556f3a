use std::cell::Cell;
use std::rc::Rc;

use ranno::{Annotated, Annotation};

/// A singly linked list whose links cache the length of the rest.
enum Chain {
    Empty,
    Node {
        elem: u64,
        next: Annotated<Rc<Chain>, Length>,
        derived: Cell<usize>,
    },
}

#[derive(Debug, PartialEq, Eq)]
struct Length(usize);

impl Annotation<Chain> for Length {
    fn spec_from_child(list: &Chain) -> Self {
        match list {
            Chain::Empty => Length(0),
            Chain::Node { next, .. } => Length(1 + Length::spec_from_child(&**next.child()).0),
        }
    }

    fn from_child(list: &Chain) -> Self {
        match list {
            Chain::Empty => Length(0),
            Chain::Node { next, derived, .. } => {
                derived.set(derived.get() + 1);
                Length(1 + next.anno().0)
            }
        }
    }
}

impl Chain {
    fn push(&mut self, elem: u64) {
        let rest = std::mem::replace(self, Chain::Empty);
        let next = Annotated::new(Rc::new(rest));
        *self = Chain::Node { elem, next, derived: Cell::new(0) };
    }

    fn pop(&mut self) -> Option<u64> {
        match std::mem::replace(self, Chain::Empty) {
            Chain::Empty => None,
            Chain::Node { elem, next, derived } => {
                let (rest, _) = next.split();
                match Rc::try_unwrap(rest) {
                    Ok(list) => {
                        *self = list;
                        Some(elem)
                    }
                    Err(rest) => {
                        let next = Annotated::new(rest);
                        *self = Chain::Node { elem, next, derived };
                        None
                    }
                }
            }
        }
    }

    fn derived(&self) -> usize {
        match self {
            Chain::Empty => 0,
            Chain::Node { derived, .. } => derived.get(),
        }
    }

    fn next(&self) -> &Chain {
        match self {
            Chain::Empty => self,
            Chain::Node { next, .. } => next.child(),
        }
    }
}

#[test]
fn chain_length_rolls_up() {
    let mut list = Chain::Empty;
    assert_eq!(Length::from_child(&list), Length(0));

    list.push(1);
    list.push(2);
    list.push(3);
    assert_eq!(Length::from_child(&list), Length(3));
    assert_eq!(list.derived(), 1);
    assert_eq!(list.next().derived(), 1);
    assert_eq!(list.next().next().derived(), 1);

    assert_eq!(list.pop(), Some(3));
    assert_eq!(Length::from_child(&list), Length(2));
    // the new head is derived again; the link below it kept its cache
    assert_eq!(list.derived(), 2);
    assert_eq!(list.next().derived(), 1);
}

#[test]
fn chain_wrapped_outermost() {
    let mut list = Chain::Empty;
    list.push(10);
    list.push(20);
    list.push(30);
    let outer: Annotated<Rc<Chain>, Length> = Annotated::new(Rc::new(list));
    assert_eq!(*outer.anno(), Length(3));
    assert_eq!(*outer.anno(), Length(3));
    assert_eq!(outer.child().derived(), 1);
}
