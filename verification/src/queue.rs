//! A first-in first-out queue: keys are pushed at the back and popped from
//! the front.
use vstd::prelude::*;

verus! {

/// A queue of keys, backed by a growable buffer.
pub struct Queue<T> {
    items: Vec<T>,
}

impl<T> View for Queue<T> {
    type V = Seq<T>;

    /// The queued keys, front first.
    closed spec fn view(&self) -> Seq<T> {
        self.items@
    }
}

impl<T> Queue<T> {
    /// The empty queue.
    pub fn new() -> (r: Self)
        ensures
            r@ == Seq::<T>::empty(),
    {
        Queue { items: Vec::new() }
    }

    /// Pushes a key onto the back of the queue.
    pub fn push(&mut self, key: T)
        ensures
            final(self)@ == old(self)@.push(key),
    {
        self.items.push(key);
    }

    /// Pops the key at the front of the queue, if there is one.
    pub fn pop(&mut self) -> (r: Option<T>)
        ensures
            old(self)@.len() == 0 ==> r is None && final(self)@ == old(self)@,
            old(self)@.len() > 0 ==> r == Some(old(self)@[0]) && final(self)@ == old(
                self,
            )@.drop_first(),
    {
        if self.items.len() == 0 {
            None
        } else {
            let key = self.items.remove(0);
            proof {
                assert(final(self)@ =~= old(self)@.drop_first());
            }
            Some(key)
        }
    }

    /// A reference to the key at the front of the queue, if there is one.
    pub fn peek(&self) -> (r: Option<&T>)
        ensures
            self@.len() == 0 ==> r is None,
            self@.len() > 0 ==> (r matches Some(k) && *k == self@[0]),
    {
        if self.items.len() == 0 {
            None
        } else {
            Some(&self.items[0])
        }
    }

    /// A mutable reference to the key at the front of the queue, if there
    /// is one; the queue afterwards holds whatever value the caller leaves
    /// behind the reference.
    pub fn peek_mut(&mut self) -> (r: Option<&mut T>)
        ensures
            old(self)@.len() == 0 ==> r is None && final(self)@ == old(self)@,
            old(self)@.len() > 0 ==> r.is_some() && *r.unwrap() == old(self)@[0] && final(self)@
                == old(self)@.update(0, *final(r.unwrap())),
    {
        if self.items.len() == 0 {
            None
        } else {
            Some(&mut self.items[0])
        }
    }

    /// Turns the queue into a consuming iterator over its keys, front
    /// first.
    pub fn into_iter(self) -> (r: IntoIter<T>)
        ensures
            r@ == self@,
    {
        IntoIter(self)
    }

    /// An iterator borrowing the keys, front first.
    pub fn iter(&self) -> (r: Iter<'_, T>)
        ensures
            r@ == self@,
    {
        Iter { items: &self.items, at: 0 }
    }
}

/// A consuming iterator over a queue's keys, front first.
pub struct IntoIter<T>(Queue<T>);

impl<T> View for IntoIter<T> {
    type V = Seq<T>;

    /// The keys not yet handed out.
    closed spec fn view(&self) -> Seq<T> {
        self.0@
    }
}

impl<T> IntoIter<T> {
    /// The next key, if one is left.
    pub fn next(&mut self) -> (r: Option<T>)
        ensures
            old(self)@.len() == 0 ==> r is None && final(self)@ == old(self)@,
            old(self)@.len() > 0 ==> r == Some(old(self)@[0]) && final(self)@ == old(
                self,
            )@.drop_first(),
    {
        self.0.pop()
    }
}

/// A borrowing iterator over a queue's keys, front first.
pub struct Iter<'a, T> {
    items: &'a Vec<T>,
    at: usize,
}

impl<'a, T> View for Iter<'a, T> {
    type V = Seq<T>;

    /// The keys not yet handed out.
    closed spec fn view(&self) -> Seq<T> {
        if self.at <= self.items@.len() {
            self.items@.subrange(self.at as int, self.items@.len() as int)
        } else {
            Seq::empty()
        }
    }
}

impl<'a, T> Iter<'a, T> {
    /// A reference to the next key, if one is left.
    pub fn next(&mut self) -> (r: Option<&'a T>)
        ensures
            old(self)@.len() == 0 ==> r is None && final(self)@ == old(self)@,
            old(self)@.len() > 0 ==> (r matches Some(k) && *k == old(self)@[0] && final(self)@
                == old(self)@.drop_first()),
    {
        let items: &'a Vec<T> = self.items;
        if self.at < items.len() {
            let key = &items[self.at];
            self.at = self.at + 1;
            proof {
                assert(final(self)@ =~= old(self)@.drop_first());
            }
            Some(key)
        } else {
            None
        }
    }
}

} // verus!
