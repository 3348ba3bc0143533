//! A bounded queue laid over a caller-owned buffer.
//!
//! The queue borrows a slice for its whole lifetime and never resizes it.
//! The valid elements sit in `memory[0 .. len)`, front first; the remaining
//! slots are unused capacity. Structural mutations take the queue's
//! exclusion flag for their duration.
use vstd::prelude::*;
use vstd::std_specs::iter::IteratorSpec;

use core::slice::Iter;
use core::slice::IterMut;

use crate::lock::Lock;

verus! {

#[derive(Debug, PartialEq, Eq, Structural)]
pub enum ErrorKind {
    /// The operation needs more free slots than the queue has.
    NoSpace,
}

/// The contents after appending `v` to `s` in a buffer of `cap` slots: a
/// full buffer takes nothing.
pub open spec fn pushed<T>(s: Seq<T>, cap: nat, v: T) -> Seq<T> {
    if s.len() < cap {
        s.push(v)
    } else {
        s
    }
}

/// The contents after putting `v` in front of `s` in a buffer of `cap` slots.
pub open spec fn unshifted<T>(s: Seq<T>, cap: nat, v: T) -> Seq<T> {
    if s.len() < cap {
        seq![v] + s
    } else {
        s
    }
}

/// The contents after putting `v` at position `index` of `s` in a buffer of
/// `cap` slots.
pub open spec fn inserted<T>(s: Seq<T>, cap: nat, index: int, v: T) -> Seq<T> {
    if s.len() < cap {
        s.insert(index, v)
    } else {
        s
    }
}

/// The element at the back of `s`, if any.
pub open spec fn back<T>(s: Seq<T>) -> Option<T> {
    if s.len() == 0 {
        None
    } else {
        Some(s.last())
    }
}

/// `s` without its back element (`s` itself when empty).
pub open spec fn without_back<T>(s: Seq<T>) -> Seq<T> {
    if s.len() == 0 {
        s
    } else {
        s.drop_last()
    }
}

/// The element at the front of `s`, if any.
pub open spec fn front<T>(s: Seq<T>) -> Option<T> {
    if s.len() == 0 {
        None
    } else {
        Some(s[0])
    }
}

/// `s` without its front element (`s` itself when empty).
pub open spec fn without_front<T>(s: Seq<T>) -> Seq<T> {
    if s.len() == 0 {
        s
    } else {
        s.drop_first()
    }
}

/// std's mutable slice iterator, carried through opaque.
#[verifier::external_type_specification]
#[verifier::external_body]
#[verifier::reject_recursive_types(A)]
pub struct ExIterMut<'a, A: 'a>(core::slice::IterMut<'a, A>);

/// Relies on `IntoIterator` for `&mut [A]` (what `iter_mut` gives), which
/// lends each element of the slice in turn; a slice keeps its length.
pub assume_specification<'a, A>[ <&'a mut [A] as core::iter::IntoIterator>::into_iter ](
    slice: &'a mut [A],
) -> (r: core::slice::IterMut<'a, A>)
    ensures
        final(slice)@.len() == old(slice)@.len(),
;

/// Queue of `T` over a borrowed buffer.
#[derive(Debug)]
pub struct Queue<'a, T: 'a + Copy> {
    memory: &'a mut [T],
    len: usize,
    lock: Lock,
}

impl<'a, T: 'a + Copy> View for Queue<'a, T> {
    type V = Seq<T>;

    /// The valid elements, front first.
    open spec fn view(&self) -> Seq<T> {
        self.storage().take(self.spec_len() as int)
    }
}

impl<'a, T: 'a + Copy> Queue<'a, T> {
    /// Every slot of the borrowed buffer, valid or not.
    pub closed spec fn storage(&self) -> Seq<T> {
        (*self.memory)@
    }

    /// The logical length.
    pub closed spec fn spec_len(&self) -> nat {
        self.len as nat
    }

    /// The state of the queue's exclusion flag.
    pub closed spec fn lock_state(&self) -> Lock {
        self.lock
    }

    /// The number of slots of the buffer.
    pub open spec fn cap(&self) -> nat {
        self.storage().len()
    }

    /// The logical length never exceeds the buffer.
    pub open spec fn wf(&self) -> bool {
        self.spec_len() <= self.cap()
    }

    /// Holds after every structural mutation: the buffer is the same size,
    /// the flag is released.
    pub open spec fn settled(&self, prior: &Self) -> bool {
        &&& self.wf()
        &&& self.cap() == prior.cap()
        &&& self.lock_state() == Lock::Unlocked
    }

    /// Binds an empty queue to `memory`, whose contents are left as they are.
    pub fn new(memory: &'a mut [T]) -> (r: Self)
        ensures
            r.wf(),
            r@ == Seq::<T>::empty(),
            r.storage() == old(memory)@,
            r.lock_state() == Lock::Unlocked,
    {
        Queue { memory: memory, len: 0, lock: Lock::Unlocked }
    }

    pub fn capacity(&self) -> (r: usize)
        ensures
            r == self.cap(),
    {
        self.memory.len()
    }

    pub fn len(&self) -> (r: usize)
        requires
            self.wf(),
        ensures
            r == self@.len(),
    {
        self.len
    }

    pub fn available(&self) -> (r: usize)
        requires
            self.wf(),
        ensures
            r == self.cap() - self@.len(),
    {
        self.capacity() - self.len()
    }

    pub fn is_empty(&self) -> (r: bool)
        requires
            self.wf(),
        ensures
            r == (self@.len() == 0),
    {
        self.len == 0
    }

    /// Acquires the queue's flag; a held flag would make this spin forever.
    pub fn get_lock(&mut self)
        requires
            old(self).lock_state() == Lock::Unlocked,
        ensures
            final(self).lock_state() == Lock::Locked,
            final(self).storage() == old(self).storage(),
            final(self).spec_len() == old(self).spec_len(),
    {
        self.lock.get_lock()
    }

    /// Releases the queue's flag.
    pub fn unlock(&mut self)
        ensures
            final(self).lock_state() == Lock::Unlocked,
            final(self).storage() == old(self).storage(),
            final(self).spec_len() == old(self).spec_len(),
    {
        self.lock.unlock()
    }

    /// A copy of the element at `index`.
    ///
    /// Only valid positions are read: `index == len` would name the slot just
    /// past the back, which holds no element, so it is rejected too.
    pub fn peek(&self, index: usize) -> (r: T)
        requires
            self.wf(),
            index < self@.len(),
        ensures
            r == self@[index as int],
    {
        self.memory[index]
    }

    /// Inserts `element` at `index`, moving the elements from `index` on one
    /// place toward the back. On a full queue nothing changes.
    pub fn insert(&mut self, index: usize, element: T)
        requires
            old(self).wf(),
            old(self).lock_state() == Lock::Unlocked,
            index <= old(self)@.len(),
        ensures
            final(self).settled(old(self)),
            final(self)@ == inserted(old(self)@, old(self).cap(), index as int, element),
    {
        if index == self.len || self.len == 0 {
            self.push(element);
        } else if self.available() >= 1 {
            self.lock.get_lock();
            self.shift_back(index);
            self.memory[index] = element;
            self.len += 1;
            self.lock.unlock();
            assert(self@ =~= old(self)@.insert(index as int, element));
        }
    }

    /// Overwrites the element at `index` and returns the one it replaced.
    pub fn replace(&mut self, index: usize, element: T) -> (r: T)
        requires
            old(self).wf(),
            index < old(self)@.len(),
        ensures
            r == old(self)@[index as int],
            final(self).wf(),
            final(self).cap() == old(self).cap(),
            final(self).lock_state() == old(self).lock_state(),
            final(self)@ == old(self)@.update(index as int, element),
    {
        let ret = self.memory[index];
        self.memory[index] = element;
        assert(self@ =~= old(self)@.update(index as int, element));
        ret
    }

    /// Takes out the element at `index`, moving the later ones one place
    /// toward the front.
    pub fn remove(&mut self, index: usize) -> (r: T)
        requires
            old(self).wf(),
            old(self).lock_state() == Lock::Unlocked,
            index < old(self)@.len(),
        ensures
            r == old(self)@[index as int],
            final(self).settled(old(self)),
            final(self)@ == old(self)@.remove(index as int),
    {
        let ret = self.memory[index];
        self.lock.get_lock();
        self.shift_front(index);
        self.len -= 1;
        self.lock.unlock();
        assert(self@ =~= old(self)@.remove(index as int));
        ret
    }

    /// Appends `value` at the back. On a full queue nothing changes.
    pub fn push(&mut self, value: T)
        requires
            old(self).wf(),
            old(self).lock_state() == Lock::Unlocked,
        ensures
            final(self).settled(old(self)),
            final(self)@ == pushed(old(self)@, old(self).cap(), value),
    {
        if self.available() >= 1 {
            self.lock.get_lock();
            self.memory[self.len] = value;
            self.len += 1;
            self.lock.unlock();
            assert(self@ =~= old(self)@.push(value));
        }
    }

    /// Takes out the element at the back, or gives `None` on an empty queue.
    pub fn pop(&mut self) -> (r: Option<T>)
        requires
            old(self).wf(),
            old(self).lock_state() == Lock::Unlocked,
        ensures
            final(self).settled(old(self)),
            r == back(old(self)@),
            final(self)@ == without_back(old(self)@),
    {
        if self.len > 0 {
            self.lock.get_lock();
            self.len -= 1;
            self.lock.unlock();
            assert(self@ =~= old(self)@.drop_last());
            Some(self.memory[self.len])
        } else {
            None
        }
    }

    /// Appends every element of `other`, in order, under one acquisition of
    /// the flag. When `other` does not fit in the free slots, nothing is
    /// appended and `NoSpace` is returned.
    pub fn push_all(&mut self, other: &[T]) -> (r: Result<(), ErrorKind>)
        requires
            old(self).wf(),
            old(self).lock_state() == Lock::Unlocked,
        ensures
            final(self).settled(old(self)),
            r is Ok <==> old(self)@.len() + other@.len() <= old(self).cap(),
            r is Ok ==> final(self)@ == old(self)@ + other@,
            r is Err ==> r == Err::<(), ErrorKind>(ErrorKind::NoSpace) && final(self)@ == old(self)@,
    {
        if other.len() > self.available() {
            return Err(ErrorKind::NoSpace);
        }
        self.lock.get_lock();
        let mut k: usize = 0;
        while k < other.len()
            invariant
                self.wf(),
                self.cap() == old(self).cap(),
                self.lock_state() == Lock::Locked,
                k <= other@.len(),
                self.spec_len() == old(self).spec_len() + k,
                old(self).spec_len() + other@.len() <= self.cap(),
                self@ =~= old(self)@ + other@.take(k as int),
            decreases other@.len() - k,
        {
            let ghost prev = self@;
            self.memory[self.len] = other[k];
            self.len += 1;
            assert(self@ =~= prev.push(other@[k as int]));
            assert(other@.take(k + 1) =~= other@.take(k as int).push(other@[k as int]));
            k += 1;
        }
        self.lock.unlock();
        assert(other@.take(k as int) =~= other@);
        Ok(())
    }

    /// Puts `value` at the front, moving every element one place toward the
    /// back. On a full queue nothing changes.
    pub fn unshift(&mut self, value: T)
        requires
            old(self).wf(),
            old(self).lock_state() == Lock::Unlocked,
        ensures
            final(self).settled(old(self)),
            final(self)@ == unshifted(old(self)@, old(self).cap(), value),
    {
        if self.available() >= 1 {
            self.lock.get_lock();
            self.shift_back(0);
            self.memory[0] = value;
            self.len += 1;
            self.lock.unlock();
            assert(self@ =~= seq![value] + old(self)@);
        }
    }

    /// Takes out the element at the front, moving the others one place toward
    /// the front, or gives `None` on an empty queue.
    pub fn shift(&mut self) -> (r: Option<T>)
        requires
            old(self).wf(),
            old(self).lock_state() == Lock::Unlocked,
        ensures
            final(self).settled(old(self)),
            r == front(old(self)@),
            final(self)@ == without_front(old(self)@),
    {
        if self.len > 0 {
            self.lock.get_lock();
            let ret = self.memory[0];
            self.shift_front(0);
            self.len -= 1;
            self.lock.unlock();
            assert(self@ =~= old(self)@.drop_first());
            Some(ret)
        } else {
            None
        }
    }

    /// Forgets every element; the slots keep their contents.
    pub fn clear(&mut self)
        requires
            old(self).wf(),
        ensures
            final(self).wf(),
            final(self).cap() == old(self).cap(),
            final(self).lock_state() == old(self).lock_state(),
            final(self)@ == Seq::<T>::empty(),
    {
        self.len = 0;
    }

    /// The valid elements as a slice, front first.
    pub fn as_slice(&self) -> (r: &[T])
        requires
            self.wf(),
        ensures
            r@ == self@,
    {
        let (slice, _) = self.memory.split_at(self.len);
        slice
    }

    /// The valid elements as a mutable slice; what is written through it
    /// becomes the queue's contents.
    pub fn as_mut_slice(&mut self) -> (r: &mut [T])
        requires
            old(self).wf(),
        ensures
            r@ == old(self)@,
            final(self).spec_len() == old(self).spec_len(),
            final(self).lock_state() == old(self).lock_state(),
            final(r)@.len() == r@.len() ==> {
                &&& final(self).wf()
                &&& final(self).cap() == old(self).cap()
                &&& final(self)@ == final(r)@
                &&& final(self).storage().skip(r@.len() as int) == old(self).storage().skip(r@.len() as int)
            },
    {
        let (slice, _) = self.memory.split_at_mut(self.len);
        slice
    }

    /// Replaces each valid element, front to back, by what `f` makes of it.
    pub fn map_in_place<F>(&mut self, f: F)
        where
            F: Fn(T) -> T,
        requires
            old(self).wf(),
            forall|i: int| 0 <= i < old(self)@.len() ==> f.requires((#[trigger] old(self)@[i],)),
        ensures
            final(self).wf(),
            final(self).cap() == old(self).cap(),
            final(self).lock_state() == old(self).lock_state(),
            final(self)@.len() == old(self)@.len(),
            forall|i: int| 0 <= i < old(self)@.len() ==> f.ensures((old(self)@[i],), #[trigger] final(self)@[i]),
    {
        let mut i: usize = 0;
        while i < self.len
            invariant
                self.wf(),
                self.cap() == old(self).cap(),
                self.lock_state() == old(self).lock_state(),
                self.spec_len() == old(self).spec_len(),
                forall|j: int| 0 <= j < old(self)@.len() ==> f.requires((#[trigger] old(self)@[j],)),
                forall|j: int| i <= j < self.spec_len() ==> self.storage()[j] == old(self).storage()[j],
                forall|j: int| 0 <= j < i ==> f.ensures((old(self).storage()[j],), #[trigger] self.storage()[j]),
            decreases self.len - i,
        {
            assert(f.requires((old(self)@[i as int],)));
            let v = f(self.memory[i]);
            self.memory[i] = v;
            i += 1;
        }
    }

    /// A forward iterator over the valid elements.
    pub fn iter(&self) -> (r: Iter<'_, T>)
        requires
            self.wf(),
        ensures
            r.remaining() == self@.as_ref(),
    {
        let (slice, _) = self.memory.split_at(self.len);
        slice.iter()
    }

    /// A forward iterator that lends each valid element mutably.
    pub fn iter_mut(&mut self) -> (r: IterMut<'_, T>)
        requires
            old(self).wf(),
        ensures
            final(self).wf(),
            final(self).cap() == old(self).cap(),
            final(self).spec_len() == old(self).spec_len(),
            final(self).lock_state() == old(self).lock_state(),
            final(self).storage().skip(old(self)@.len() as int)
                == old(self).storage().skip(old(self)@.len() as int),
    {
        let (slice, _) = self.memory.split_at_mut(self.len);
        slice.into_iter()
    }

    /// Moves the slots `[from, len)` one place toward the back, highest
    /// index first, leaving slot `from` as it was.
    fn shift_back(&mut self, from: usize)
        requires
            old(self).wf(),
            from <= old(self).spec_len() < old(self).cap(),
        ensures
            final(self).cap() == old(self).cap(),
            final(self).spec_len() == old(self).spec_len(),
            final(self).lock_state() == old(self).lock_state(),
            forall|j: int| 0 <= j <= from ==> final(self).storage()[j] == old(self).storage()[j],
            forall|j: int|
                from < j <= old(self).spec_len() ==> final(self).storage()[j] == old(self).storage()[j - 1],
    {
        let mut i: usize = self.len;
        while i > from
            invariant
                from <= i <= self.len,
                self.len == old(self).len,
                self.len < self.memory@.len(),
                self.memory@.len() == old(self).memory@.len(),
                self.lock == old(self).lock,
                forall|j: int| 0 <= j <= i ==> self.memory@[j] == old(self).memory@[j],
                forall|j: int| i < j <= self.len ==> self.memory@[j] == old(self).memory@[j - 1],
            decreases i,
        {
            self.memory[i] = self.memory[i - 1];
            i -= 1;
        }
    }

    /// Moves the slots `(at, len)` one place toward the front, lowest index
    /// first, overwriting slot `at`.
    fn shift_front(&mut self, at: usize)
        requires
            old(self).wf(),
            at < old(self).spec_len(),
        ensures
            final(self).cap() == old(self).cap(),
            final(self).spec_len() == old(self).spec_len(),
            final(self).lock_state() == old(self).lock_state(),
            forall|j: int| 0 <= j < at ==> final(self).storage()[j] == old(self).storage()[j],
            forall|j: int|
                at <= j < old(self).spec_len() - 1 ==> final(self).storage()[j] == old(self).storage()[j + 1],
    {
        let mut i: usize = at;
        while i + 1 < self.len
            invariant
                at <= i < self.len,
                self.len == old(self).len,
                self.len <= self.memory@.len(),
                self.memory@.len() == old(self).memory@.len(),
                self.lock == old(self).lock,
                forall|j: int| 0 <= j < at ==> self.memory@[j] == old(self).memory@[j],
                forall|j: int| i <= j < self.len ==> self.memory@[j] == old(self).memory@[j],
                forall|j: int| at <= j < i ==> self.memory@[j] == old(self).memory@[j + 1],
            decreases self.len - i,
        {
            self.memory[i] = self.memory[i + 1];
            i += 1;
        }
    }
}

} // verus!
