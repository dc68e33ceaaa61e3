//! A double-ended list: keys can be pushed, popped and inspected at both
//! ends.
use vstd::prelude::*;

verus! {

/// A double-ended list of keys, backed by a growable buffer; the head is
/// the front, the tail is the back.
pub struct DoubleLinked<T> {
    items: Vec<T>,
}

impl<T> View for DoubleLinked<T> {
    type V = Seq<T>;

    /// The stored keys, front (head) first.
    closed spec fn view(&self) -> Seq<T> {
        self.items@
    }
}

impl<T> DoubleLinked<T> {
    /// The empty list.
    pub fn new() -> (r: Self)
        ensures
            r@ == Seq::<T>::empty(),
    {
        DoubleLinked { items: Vec::new() }
    }

    /// Pushes a key onto the front of the list.
    pub fn push_front(&mut self, key: T)
        ensures
            final(self)@ == seq![key] + old(self)@,
    {
        self.items.insert(0, key);
        proof {
            assert(final(self)@ =~= seq![key] + old(self)@);
        }
    }

    /// Pops the key at the front of the list, if there is one.
    pub fn pop_front(&mut self) -> (r: Option<T>)
        ensures
            old(self)@.len() == 0 ==> r is None && final(self)@ == old(self)@,
            old(self)@.len() > 0 ==> r == Some(old(self)@[0]) && final(self)@ == old(
                self,
            )@.drop_first(),
    {
        if self.items.len() == 0 {
            None
        } else {
            let key = self.items.remove(0);
            proof {
                assert(final(self)@ =~= old(self)@.drop_first());
            }
            Some(key)
        }
    }

    /// Pushes a key onto the back of the list.
    pub fn push_back(&mut self, key: T)
        ensures
            final(self)@ == old(self)@.push(key),
    {
        self.items.push(key);
    }

    /// Pops the key at the back of the list, if there is one.
    pub fn pop_back(&mut self) -> (r: Option<T>)
        ensures
            old(self)@.len() == 0 ==> r is None && final(self)@ == old(self)@,
            old(self)@.len() > 0 ==> r == Some(old(self)@.last()) && final(self)@ == old(
                self,
            )@.drop_last(),
    {
        if self.items.len() == 0 {
            None
        } else {
            let key = self.items.pop().unwrap();
            proof {
                assert(final(self)@ =~= old(self)@.drop_last());
            }
            Some(key)
        }
    }

    /// Whether the list holds no key.
    pub fn is_empty(&self) -> (r: bool)
        ensures
            r == (self@.len() == 0),
    {
        self.items.len() == 0
    }

    /// A reference to the key at the front of the list, if there is one.
    pub fn peek_front(&self) -> (r: Option<&T>)
        ensures
            self@.len() == 0 ==> r is None,
            self@.len() > 0 ==> (r matches Some(k) && *k == self@[0]),
    {
        if self.items.len() == 0 {
            None
        } else {
            Some(&self.items[0])
        }
    }

    /// A reference to the key at the back of the list, if there is one.
    pub fn peek_back(&self) -> (r: Option<&T>)
        ensures
            self@.len() == 0 ==> r is None,
            self@.len() > 0 ==> (r matches Some(k) && *k == self@.last()),
    {
        if self.items.len() == 0 {
            None
        } else {
            Some(&self.items[self.items.len() - 1])
        }
    }

    /// A mutable reference to the key at the front of the list, if there
    /// is one; the list afterwards holds whatever value the caller leaves
    /// behind the reference.
    pub fn peek_front_mut(&mut self) -> (r: Option<&mut T>)
        ensures
            old(self)@.len() == 0 ==> r is None && final(self)@ == old(self)@,
            old(self)@.len() > 0 ==> r.is_some() && *r.unwrap() == old(self)@[0] && final(self)@
                == old(self)@.update(0, *final(r.unwrap())),
    {
        if self.items.len() == 0 {
            None
        } else {
            Some(&mut self.items[0])
        }
    }

    /// A mutable reference to the key at the back of the list, if there is
    /// one; the list afterwards holds whatever value the caller leaves
    /// behind the reference.
    pub fn peek_back_mut(&mut self) -> (r: Option<&mut T>)
        ensures
            old(self)@.len() == 0 ==> r is None && final(self)@ == old(self)@,
            old(self)@.len() > 0 ==> r.is_some() && *r.unwrap() == old(self)@.last()
                && final(self)@ == old(self)@.update(old(self)@.len() - 1, *final(r.unwrap())),
    {
        if self.items.len() == 0 {
            None
        } else {
            let last = self.items.len() - 1;
            Some(&mut self.items[last])
        }
    }

    /// Turns the list into a consuming iterator that can serve keys from
    /// either end.
    pub fn into_iter(self) -> (r: IntoIter<T>)
        ensures
            r@ == self@,
    {
        IntoIter(self)
    }
}

impl<T> Default for DoubleLinked<T> {
    fn default() -> (r: Self)
        ensures
            r@ == Seq::<T>::empty(),
    {
        DoubleLinked::new()
    }
}

/// A consuming iterator over a list's keys that can serve both ends.
pub struct IntoIter<T>(DoubleLinked<T>);

impl<T> View for IntoIter<T> {
    type V = Seq<T>;

    /// The keys not yet handed out, front first.
    closed spec fn view(&self) -> Seq<T> {
        self.0@
    }
}

impl<T> IntoIter<T> {
    /// The next key from the front, if one is left.
    pub fn next(&mut self) -> (r: Option<T>)
        ensures
            old(self)@.len() == 0 ==> r is None && final(self)@ == old(self)@,
            old(self)@.len() > 0 ==> r == Some(old(self)@[0]) && final(self)@ == old(
                self,
            )@.drop_first(),
    {
        self.0.pop_front()
    }

    /// The next key from the back, if one is left.
    pub fn next_back(&mut self) -> (r: Option<T>)
        ensures
            old(self)@.len() == 0 ==> r is None && final(self)@ == old(self)@,
            old(self)@.len() > 0 ==> r == Some(old(self)@.last()) && final(self)@ == old(
                self,
            )@.drop_last(),
    {
        self.0.pop_back()
    }
}

} // verus!
