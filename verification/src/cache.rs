use vstd::prelude::*;

verus! {

/// A capacity-bounded slot table that hands out small reusable integer
/// handles for stored items.
///
/// Each slot is either free (`None`) or occupied. A handle is the index of an
/// occupied slot and stays valid exactly as long as that slot stays occupied;
/// a released index may be handed out again. Capacity is a hard ceiling:
/// `store` reports exhaustion instead of growing or evicting.
pub struct Cache<T> {
    slots: Vec<Option<T>>,
}

impl<T> View for Cache<T> {
    type V = Seq<Option<T>>;

    /// The slot table as a sequence; `None` marks a free slot.
    closed spec fn view(&self) -> Seq<Option<T>> {
        self.slots@
    }
}

impl<T> Cache<T> {
    /// Allocate a table of `capacity` slots, all free.
    pub fn with_capacity(capacity: usize) -> (r: Cache<T>)
        ensures
            r@.len() == capacity,
            forall|i: int| 0 <= i < capacity ==> r@[i] is None,
    {
        let mut slots: Vec<Option<T>> = Vec::with_capacity(capacity);
        let mut i: usize = 0;
        while i < capacity
            invariant
                i <= capacity,
                slots@.len() == i,
                forall|j: int| 0 <= j < i ==> slots@[j] is None,
            decreases capacity - i,
        {
            slots.push(None);
            i = i + 1;
        }
        Cache { slots }
    }

    /// Store `item` in the lowest free slot and return its index, or return
    /// `None` when every slot is occupied. On exhaustion the table is left
    /// unchanged.
    pub fn store(&mut self, item: T) -> (r: Option<usize>)
        ensures
            match r {
                Some(h) => {
                    &&& h < old(self)@.len()
                    &&& old(self)@[h as int] is None
                    &&& forall|j: int| 0 <= j < h ==> old(self)@[j] is Some
                    &&& final(self)@ == old(self)@.update(h as int, Some(item))
                },
                None => {
                    &&& final(self)@ == old(self)@
                    &&& forall|j: int| 0 <= j < old(self)@.len() ==> old(self)@[j] is Some
                },
            },
    {
        let n = self.slots.len();
        let mut i: usize = 0;
        while i < n
            invariant
                n == self@.len(),
                i <= n,
                self@ == old(self)@,
                forall|j: int| 0 <= j < i ==> self@[j] is Some,
            decreases n - i,
        {
            if self.slots[i].is_none() {
                self.slots.set(i, Some(item));
                return Some(i);
            }
            i = i + 1;
        }
        None
    }

    /// Return a reference to the item at `index`, or `None` when the index is
    /// out of range or the slot is free.
    pub fn get_ref(&self, index: usize) -> (r: Option<&T>)
        ensures
            match r {
                Some(t) => index < self@.len() && self@[index as int] == Some(*t),
                None => index >= self@.len() || self@[index as int] is None,
            },
    {
        if index < self.slots.len() {
            self.slots[index].as_ref()
        } else {
            None
        }
    }

    /// Free the slot at `index`. Removing an out-of-range or already-free
    /// index is a no-op, never an error.
    pub fn remove(&mut self, index: usize)
        ensures
            index < old(self)@.len() ==> final(self)@ == old(self)@.update(index as int, None::<T>),
            index >= old(self)@.len() ==> final(self)@ == old(self)@,
    {
        if index < self.slots.len() {
            self.slots.set(index, None);
        }
    }

    /// The number of slots, free or occupied.
    pub fn capacity(&self) -> (r: usize)
        ensures
            r == self@.len(),
    {
        self.slots.len()
    }
}

} // verus!
