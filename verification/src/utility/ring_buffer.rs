use crate::utility::ring_state::{lemma_wrap_once, RingState};
use vstd::prelude::*;

verus! {

/// A fixed-capacity circular buffer that hands out its slots in bulk, as up
/// to two contiguous slices on either side of the wrap point.
pub struct RingBuffer<T> {
    pub capacity: usize,
    pub buffer: Vec<T>,
    /// start of data, including
    pub head: usize,
    /// end of data, excluding
    pub tail: usize,
    pub len: usize,
}

impl<T> View for RingBuffer<T> {
    type V = RingState<T>;

    open spec fn view(&self) -> RingState<T> {
        RingState {
            capacity: self.capacity as nat,
            storage: self.buffer@,
            head: self.head as nat,
            tail: self.tail as nat,
            len: self.len as nat,
        }
    }
}

impl<T: Default> RingBuffer<T> {
    /// An empty buffer of `capacity` slots, each holding a default value.
    pub fn with_default(capacity: usize) -> (ring: Self)
        requires
            capacity > 0,
        ensures
            ring.wf(),
            ring.capacity == capacity,
            ring.head == 0,
            ring.tail == 0,
            ring.len == 0,
            forall|i: int|
                0 <= i < capacity ==> call_ensures(T::default, (), #[trigger] ring.buffer@[i]),
    {
        Self::new(capacity, T::default)
    }
}

impl<T> RingBuffer<T> {
    /// The invariant of the buffer, stated on its mathematical state.
    pub open spec fn wf(&self) -> bool {
        self@.wf()
    }

    /// An empty buffer of `capacity` slots, each filled by one call of `fill`.
    pub fn new<F>(capacity: usize, mut fill: F) -> (ring: Self) where F: FnMut() -> T
        requires
            capacity > 0,
            call_requires(fill, ()),
        ensures
            ring.wf(),
            ring.capacity == capacity,
            ring.head == 0,
            ring.tail == 0,
            ring.len == 0,
            forall|i: int| 0 <= i < capacity ==> call_ensures(fill, (), #[trigger] ring.buffer@[i]),
    {
        let mut buffer: Vec<T> = Vec::with_capacity(capacity);
        let ghost filler = fill;
        let mut i: usize = 0;
        while i < capacity
            invariant
                fill == filler,
                call_requires(fill, ()),
                i <= capacity,
                buffer@.len() == i,
                forall|j: int| 0 <= j < i ==> call_ensures(fill, (), #[trigger] buffer@[j]),
            decreases capacity - i,
        {
            buffer.push(fill());
            i = i + 1;
        }
        proof {
            lemma_wrap_once(0, capacity as int);
        }
        Self { capacity, buffer, head: 0, tail: 0, len: 0 }
    }

    /// Whatever the caller leaves in the two runs of a write, provided it
    /// has their lengths, the invariant holds afterwards and the queue has
    /// grown by exactly that.
    proof fn lemma_write_outcome(&self, amount: usize)
        requires
            self.wf(),
        ensures
            forall|a: Seq<T>, b: Seq<T>| #[trigger]
                self@.fits_write(amount as nat, a, b) ==> {
                    &&& self@.written(amount as nat, a, b).wf()
                    &&& self@.written(amount as nat, a, b).contents() == self@.contents() + a + b
                },
    {
        assert forall|a: Seq<T>, b: Seq<T>| #[trigger]
            self@.fits_write(amount as nat, a, b) implies {
            &&& self@.written(amount as nat, a, b).wf()
            &&& self@.written(amount as nat, a, b).contents() == self@.contents() + a + b
        } by {
            self@.lemma_write_keeps_invariant(amount as nat, a, b);
            self@.lemma_write_appends(amount as nat, a, b);
        }
    }

    /// Tests the invariant, for a buffer whose cursors were set by hand.
    pub fn is_well_formed(&self) -> (ok: bool)
        ensures
            ok == self.wf(),
    {
        if self.capacity == 0 || self.buffer.len() != self.capacity || self.head >= self.capacity
            || self.tail >= self.capacity || self.len > self.capacity {
            return false;
        }
        proof {
            lemma_wrap_once((self.head + self.len) as int, self.capacity as int);
        }
        let to_end: usize = self.capacity - self.head;
        let end: usize = if self.len < to_end {
            self.head + self.len
        } else {
            self.len - to_end
        };
        self.tail == end
    }

    /// Number of free slots.
    pub fn space(&self) -> (free: usize)
        requires
            self.len <= self.capacity,
        ensures
            free == self@.space(),
            free + self.len == self.capacity,
    {
        self.capacity - self.len()
    }

    /// Number of queued elements.
    pub fn len(&self) -> (count: usize)
        ensures
            count == self.len,
    {
        self.len
    }

    /// Claims up to `amount` free slots for the caller to fill, and counts
    /// them as queued at once. The request is clamped to the free space; the
    /// slots come as the run from `tail` towards the physical end and the
    /// run that wraps to the physical start. A request that is granted
    /// nothing gets two empty slices and leaves the buffer untouched.
    ///
    /// The state after the call depends on what the caller leaves in the two
    /// slices, so the contract states it over their final values. A slice
    /// cannot change its length; the last clause takes that as its premise,
    /// which a caller proves from the writes it has made.
    pub fn write_buffers(&mut self, amount: usize) -> (ret: (&mut [T], &mut [T]))
        requires
            old(self).wf(),
        ensures
            ret.0@ == old(self)@.write_first(amount as nat),
            ret.1@ == old(self)@.write_second(amount as nat),
            ret.0@.len() + ret.1@.len() == old(self)@.write_count(amount as nat),
            ret.0@.len() + ret.1@.len() <= amount,
            ret.0@.len() + ret.1@.len() <= old(self)@.space(),
            old(self).tail + ret.0@.len() <= old(self).capacity,
            old(self).tail + old(self)@.write_count(amount as nat) > old(self).capacity
                ==> old(self).tail + ret.0@.len() == old(self).capacity,
            final(self)@ == old(self)@.written(amount as nat, final(ret.0)@, final(ret.1)@),
            old(self)@.write_count(amount as nat) == 0 ==> final(self)@ == old(self)@,
            old(self)@.fits_write(amount as nat, final(ret.0)@, final(ret.1)@) ==> {
                &&& final(self).wf()
                &&& final(self)@.contents() == old(self)@.contents() + final(ret.0)@
                    + final(ret.1)@
            },
    {
        let space: usize = self.space();
        let n: usize = if amount < space {
            amount
        } else {
            space
        };
        if n == 0 {
            proof {
                self.lemma_write_outcome(amount);
            }
            return (&mut [], &mut []);
        }
        let tail: usize = self.tail;
        let to_end: usize = self.capacity - tail;
        proof {
            lemma_wrap_once((self.head + self.len) as int, self.capacity as int);
            lemma_wrap_once((tail + n) as int, self.capacity as int);
        }
        self.len = self.len + n;
        self.tail = if n < to_end {
            tail + n
        } else {
            n - to_end
        };
        let (front, back) = self.buffer.as_mut_slice().split_at_mut(tail);
        let back_len: usize = back.len();
        let run: usize = if n < back_len {
            n
        } else {
            back_len
        };
        let (first, back_rest) = back.split_at_mut(run);
        let (second, front_rest) = front.split_at_mut(n - run);
        proof {
            let storage = old(self).buffer@;
            assert(first@ =~= storage.subrange(tail as int, tail + run));
            assert(second@ =~= storage.subrange(0, n - run));
            assert(back_rest@ =~= storage.subrange(tail + run, self.capacity as int));
            assert(front_rest@ =~= storage.subrange(n - run, tail as int));
            old(self).lemma_write_outcome(amount);
        }
        (first, second)
    }

    /// Hands out up to `amount` of the oldest queued elements and frees
    /// their slots. The request is clamped to the queued count; the elements
    /// come as the run from `head` towards the physical end and the run that
    /// wraps to the physical start. A request that is granted nothing gets
    /// two empty slices and leaves the buffer untouched.
    pub fn read(&mut self, amount: usize) -> (ret: (&[T], &[T]))
        requires
            old(self).wf(),
        ensures
            ret.0@ == old(self)@.read_first(amount as nat),
            ret.1@ == old(self)@.read_second(amount as nat),
            ret.0@.len() + ret.1@.len() == old(self)@.read_count(amount as nat),
            ret.0@.len() + ret.1@.len() <= amount,
            ret.0@.len() + ret.1@.len() <= old(self).len,
            old(self).head + ret.0@.len() <= old(self).capacity,
            old(self).head + old(self)@.read_count(amount as nat) > old(self).capacity
                ==> old(self).head + ret.0@.len() == old(self).capacity,
            final(self)@ == old(self)@.consumed(amount as nat),
            old(self)@.read_count(amount as nat) == 0 ==> final(self)@ == old(self)@,
            final(self).wf(),
            ret.0@ + ret.1@ == old(self)@.contents().subrange(
                0,
                old(self)@.read_count(amount as nat) as int,
            ),
            final(self)@.contents() == old(self)@.contents().subrange(
                old(self)@.read_count(amount as nat) as int,
                old(self).len as int,
            ),
    {
        let n: usize = if amount < self.len {
            amount
        } else {
            self.len
        };
        let head: usize = self.head;
        let to_end: usize = self.capacity - head;
        proof {
            lemma_wrap_once((self.head + self.len) as int, self.capacity as int);
            lemma_wrap_once((head + n) as int, self.capacity as int);
            self@.lemma_read_keeps_invariant(amount as nat);
            self@.lemma_read_takes_front(amount as nat);
        }
        self.len = self.len - n;
        self.head = if n < to_end {
            head + n
        } else {
            n - to_end
        };
        let (_, back) = self.buffer.as_slice().split_at(head);
        let back_len: usize = back.len();
        let run: usize = if n < back_len {
            n
        } else {
            back_len
        };
        let (first, _) = back.split_at(run);
        let (second, _) = self.buffer.as_slice().split_at(n - run);
        (first, second)
    }
}

impl<T: Copy> RingBuffer<T> {
    /// Queues as many elements from the start of `source` as there is room
    /// for, in order, and says how many that was.
    pub fn write_from(&mut self, source: &[T]) -> (count: usize)
        requires
            old(self).wf(),
        ensures
            count == old(self)@.write_count(source@.len()),
            final(self)@ == old(self)@.written(
                source@.len(),
                source@.subrange(0, old(self)@.write_run(source@.len()) as int),
                source@.subrange(old(self)@.write_run(source@.len()) as int, count as int),
            ),
            final(self).wf(),
            final(self)@.contents() == old(self)@.contents() + source@.subrange(0, count as int),
    {
        let (first, second) = self.write_buffers(source.len());
        let run: usize = first.len();
        let rest: usize = second.len();
        let mut i: usize = 0;
        while i < run
            invariant
                i <= run,
                first@.len() == run,
                run + rest <= source.len(),
                forall|j: int| 0 <= j < i ==> first@[j] == source@[j],
            decreases run - i,
        {
            first[i] = source[i];
            i = i + 1;
        }
        let mut k: usize = 0;
        while k < rest
            invariant
                k <= rest,
                second@.len() == rest,
                run + rest <= source.len(),
                forall|j: int| 0 <= j < k ==> second@[j] == source@[run + j],
            decreases rest - k,
        {
            second[k] = source[run + k];
            k = k + 1;
        }
        proof {
            assert(first@ =~= source@.subrange(0, run as int));
            assert(second@ =~= source@.subrange(run as int, run + rest));
            assert(first@ + second@ =~= source@.subrange(0, run + rest));
        }
        run + rest
    }
}

} // verus!
