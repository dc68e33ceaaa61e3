//! A persistent singly linked list: prepending and taking the tail share
//! the remaining structure with the original list through reference
//! counting.
use std::sync::Arc;
use vstd::prelude::*;

verus! {

struct Node<T> {
    key: T,
    next: Option<Arc<Node<T>>>,
}

impl<T> Node<T> {
    fn new(key: T, next: Option<Arc<Node<T>>>) -> (r: Self)
        ensures
            r.key == key,
            r.next == next,
    {
        Node { key, next }
    }
}

/// The keys hanging off a link, head first.
spec fn link_view<T>(l: Option<Arc<Node<T>>>) -> Seq<T>
    decreases l,
{
    match l {
        Option::None => Seq::empty(),
        Option::Some(node) => seq![node.key] + link_view(node.next),
    }
}

/// Relies on `Arc::clone`: the returned handle points at the same shared
/// allocation, so its value equals the original's.
#[verifier::external_body]
fn arc_dup<T>(a: &Arc<Node<T>>) -> (r: Arc<Node<T>>)
    ensures
        r == *a,
{
    Arc::clone(a)
}

/// A persistent stack of keys: the operations return new lists and never
/// change an existing one.
pub struct Persistant<T> {
    head: Option<Arc<Node<T>>>,
}

impl<T> View for Persistant<T> {
    type V = Seq<T>;

    /// The stored keys, most recently prepended first.
    closed spec fn view(&self) -> Seq<T> {
        link_view(self.head)
    }
}

impl<T> Persistant<T> {
    /// The empty list.
    pub fn new() -> (r: Self)
        ensures
            r@ == Seq::<T>::empty(),
    {
        Persistant { head: None }
    }

    /// A new list with `key` in front of this list's keys; the rest is
    /// shared, not copied.
    pub fn prepend(&self, key: T) -> (r: Self)
        ensures
            r@ == seq![key] + self@,
    {
        let next = match &self.head {
            None => None,
            Some(node) => Some(arc_dup(node)),
        };
        Persistant { head: Some(Arc::new(Node::new(key, next))) }
    }

    /// The list without its first key; the tail of the empty list is the
    /// empty list.
    pub fn tail(&self) -> (r: Self)
        ensures
            self@.len() == 0 ==> r@ == Seq::<T>::empty(),
            self@.len() > 0 ==> r@ == self@.drop_first(),
    {
        let head = match &self.head {
            None => None,
            Some(node) => match &node.next {
                None => None,
                Some(next_node) => Some(arc_dup(next_node)),
            },
        };
        proof {
            if self@.len() > 0 {
                assert(self@.drop_first() =~= link_view(head));
            }
        }
        Persistant { head }
    }

    /// A reference to the first key, if there is one.
    pub fn head(&self) -> (r: Option<&T>)
        ensures
            self@.len() == 0 ==> r is None,
            self@.len() > 0 ==> (r matches Some(k) && *k == self@[0]),
    {
        match &self.head {
            None => None,
            Some(node) => Some(&node.key),
        }
    }

    /// An iterator borrowing the keys, head first.
    pub fn iter(&self) -> (r: Iter<'_, T>)
        ensures
            r@ == self@,
    {
        Iter {
            next: match &self.head {
                None => None,
                Some(node) => Some(&**node),
            },
        }
    }
}

impl<T> Default for Persistant<T> {
    fn default() -> (r: Self)
        ensures
            r@ == Seq::<T>::empty(),
    {
        Persistant::new()
    }
}

/// A borrowing iterator over a list's keys, head first.
pub struct Iter<'a, T> {
    next: Option<&'a Node<T>>,
}

impl<'a, T> View for Iter<'a, T> {
    type V = Seq<T>;

    /// The keys not yet handed out.
    closed spec fn view(&self) -> Seq<T> {
        match self.next {
            Option::None => Seq::empty(),
            Option::Some(node) => seq![node.key] + link_view(node.next),
        }
    }
}

impl<'a, T> Iter<'a, T> {
    /// A reference to the next key, if one is left.
    pub fn next(&mut self) -> (r: Option<&'a T>)
        ensures
            old(self)@.len() == 0 ==> r is None && final(self)@ == old(self)@,
            old(self)@.len() > 0 ==> (r matches Some(k) && *k == old(self)@[0] && final(self)@
                == old(self)@.drop_first()),
    {
        match self.next {
            None => None,
            Some(node) => {
                self.next = match &node.next {
                    None => None,
                    Some(next_node) => Some(&**next_node),
                };
                proof {
                    assert(old(self)@.drop_first() =~= link_view(node.next));
                }
                Some(&node.key)
            },
        }
    }
}

} // verus!
