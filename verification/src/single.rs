//! A singly linked list, owned through boxes: pushing and popping happen at
//! the head.
use vstd::prelude::*;

verus! {

struct Node<T> {
    key: T,
    next: Option<Box<Node<T>>>,
}

impl<T> Node<T> {
    fn new(key: T, next: Option<Box<Node<T>>>) -> (r: Self)
        ensures
            r.key == key,
            r.next == next,
    {
        Node { key, next }
    }
}

/// The keys hanging off a link, head first.
spec fn link_view<T>(l: Option<Box<Node<T>>>) -> Seq<T>
    decreases l,
{
    match l {
        Option::None => Seq::empty(),
        Option::Some(node) => seq![node.key] + link_view(node.next),
    }
}

/// A singly linked stack of keys.
pub struct SingleLinked<T> {
    head: Option<Box<Node<T>>>,
}

impl<T> View for SingleLinked<T> {
    type V = Seq<T>;

    /// The stored keys, most recently pushed first.
    closed spec fn view(&self) -> Seq<T> {
        link_view(self.head)
    }
}

impl<T> SingleLinked<T> {
    /// The empty list.
    pub fn new() -> (r: Self)
        ensures
            r@ == Seq::<T>::empty(),
    {
        SingleLinked { head: None }
    }

    /// Pushes a key onto the head of the list.
    pub fn push(&mut self, key: T)
        ensures
            final(self)@ == seq![key] + old(self)@,
    {
        let node = Box::new(Node::new(key, self.head.take()));
        self.head = Some(node);
    }

    /// Pops the key at the head of the list, if there is one.
    pub fn pop(&mut self) -> (r: Option<T>)
        ensures
            old(self)@.len() == 0 ==> r is None && final(self)@ == old(self)@,
            old(self)@.len() > 0 ==> r == Some(old(self)@[0]) && final(self)@ == old(
                self,
            )@.drop_first(),
    {
        match self.head.take() {
            None => None,
            Some(node) => {
                let inner = *node;
                self.head = inner.next;
                proof {
                    assert(old(self)@.drop_first() =~= link_view(inner.next));
                }
                Some(inner.key)
            },
        }
    }

    /// A reference to the key at the head of the list, if there is one.
    pub fn peek(&self) -> (r: Option<&T>)
        ensures
            self@.len() == 0 ==> r is None,
            self@.len() > 0 ==> (r matches Some(k) && *k == self@[0]),
    {
        match &self.head {
            None => None,
            Some(node) => Some(&node.key),
        }
    }

    /// A mutable reference to the key at the head of the list, if there is
    /// one; the list afterwards holds whatever value the caller leaves
    /// behind the reference.
    pub fn peek_mut(&mut self) -> (r: Option<&mut T>)
        ensures
            old(self)@.len() == 0 ==> r is None && final(self)@ == old(self)@,
            old(self)@.len() > 0 ==> r.is_some() && *r.unwrap() == old(self)@[0] && final(self)@
                == old(self)@.update(0, *final(r.unwrap())),
    {
        match &mut self.head {
            None => None,
            Some(node) => Some(&mut node.key),
        }
    }

    /// Turns the list into a consuming iterator over its keys, head first.
    pub fn into_iter(self) -> (r: IntoIter<T>)
        ensures
            r@ == self@,
    {
        IntoIter(self)
    }

    /// An iterator borrowing the keys, head first.
    pub fn iter(&self) -> (r: Iter<'_, T>)
        ensures
            r@ == self@,
    {
        Iter {
            next: match &self.head {
                None => None,
                Some(node) => Some(&**node),
            },
        }
    }
}

impl<T> Default for SingleLinked<T> {
    fn default() -> (r: Self)
        ensures
            r@ == Seq::<T>::empty(),
    {
        SingleLinked::new()
    }
}

/// A consuming iterator over a list's keys, head first.
pub struct IntoIter<T>(SingleLinked<T>);

impl<T> View for IntoIter<T> {
    type V = Seq<T>;

    /// The keys not yet handed out.
    closed spec fn view(&self) -> Seq<T> {
        self.0@
    }
}

impl<T> IntoIter<T> {
    /// The next key, if one is left.
    pub fn next(&mut self) -> (r: Option<T>)
        ensures
            old(self)@.len() == 0 ==> r is None && final(self)@ == old(self)@,
            old(self)@.len() > 0 ==> r == Some(old(self)@[0]) && final(self)@ == old(
                self,
            )@.drop_first(),
    {
        self.0.pop()
    }
}

/// A borrowing iterator over a list's keys, head first.
pub struct Iter<'a, T> {
    next: Option<&'a Node<T>>,
}

impl<'a, T> View for Iter<'a, T> {
    type V = Seq<T>;

    /// The keys not yet handed out.
    closed spec fn view(&self) -> Seq<T> {
        match self.next {
            Option::None => Seq::empty(),
            Option::Some(node) => seq![node.key] + link_view(node.next),
        }
    }
}

impl<'a, T> Iter<'a, T> {
    /// A reference to the next key, if one is left.
    pub fn next(&mut self) -> (r: Option<&'a T>)
        ensures
            old(self)@.len() == 0 ==> r is None && final(self)@ == old(self)@,
            old(self)@.len() > 0 ==> (r matches Some(k) && *k == old(self)@[0] && final(self)@
                == old(self)@.drop_first()),
    {
        match self.next {
            None => None,
            Some(node) => {
                self.next = match &node.next {
                    None => None,
                    Some(next_node) => Some(&**next_node),
                };
                proof {
                    assert(old(self)@.drop_first() =~= link_view(node.next));
                }
                Some(&node.key)
            },
        }
    }
}

} // verus!
