use vstd::prelude::*;

verus! {

/// The smaller of two natural numbers.
pub open spec fn smaller(a: nat, b: nat) -> nat {
    if a <= b {
        a
    } else {
        b
    }
}

/// A ring buffer as plain mathematics: the backing storage and the cursors
/// into it.
///
/// The queued elements start at slot `head` and run forward, wrapping at the
/// physical end of `storage`, for `len` slots; `tail` is the slot after the
/// newest of them.
#[verifier::ext_equal]
pub struct RingState<T> {
    pub capacity: nat,
    pub storage: Seq<T>,
    pub head: nat,
    pub tail: nat,
    pub len: nat,
}

/// One request to a ring buffer, for reasoning about runs of requests.
pub enum RingOp<T> {
    /// A write request for `amount` elements, with what the caller leaves
    /// in the first and in the second run it is handed.
    Write { amount: nat, first: Seq<T>, second: Seq<T> },
    /// A read request for `amount` elements.
    Read { amount: nat },
}

impl<T> RingState<T> {
    /// The invariant of a ring buffer. `head` and `tail` coincide both when
    /// the buffer is empty and when it is full; `len` tells the two apart.
    pub open spec fn wf(self) -> bool {
        &&& self.capacity > 0
        &&& self.storage.len() == self.capacity
        &&& self.head < self.capacity
        &&& self.tail < self.capacity
        &&& self.len <= self.capacity
        &&& self.tail == (self.head + self.len) % self.capacity
    }

    /// Number of free slots.
    pub open spec fn space(self) -> nat {
        (self.capacity - self.len) as nat
    }

    /// The slot that holds the `i`-th queued element, counted from the oldest.
    pub open spec fn slot(self, i: int) -> int {
        (self.head + i) % (self.capacity as int)
    }

    /// The queued elements, oldest first.
    pub open spec fn contents(self) -> Seq<T> {
        Seq::new(self.len, |i: int| self.storage[self.slot(i)])
    }

    /// Of `n` consecutive slots that start at `start`, the number that lie
    /// before the physical end of the storage.
    pub open spec fn run_to_end(self, start: nat, n: nat) -> nat {
        smaller(n, (self.capacity - start) as nat)
    }

    /// Number of slots a write request for `amount` elements is granted.
    pub open spec fn write_count(self, amount: nat) -> nat {
        smaller(amount, self.space())
    }

    /// Length of the first of the two runs handed out by a write.
    pub open spec fn write_run(self, amount: nat) -> nat {
        self.run_to_end(self.tail, self.write_count(amount))
    }

    /// The first run handed out by a write: free slots from `tail` towards
    /// the physical end.
    pub open spec fn write_first(self, amount: nat) -> Seq<T> {
        self.storage.subrange(self.tail as int, (self.tail + self.write_run(amount)) as int)
    }

    /// The second run handed out by a write: the free slots at the physical
    /// start that the request wraps into.
    pub open spec fn write_second(self, amount: nat) -> Seq<T> {
        self.storage.subrange(0, self.write_count(amount) - self.write_run(amount))
    }

    /// Whether `a` and `b` have the lengths of the two runs of a write.
    pub open spec fn fits_write(self, amount: nat, a: Seq<T>, b: Seq<T>) -> bool {
        &&& a.len() == self.write_run(amount)
        &&& b.len() == self.write_count(amount) - self.write_run(amount)
    }

    /// The state after a write request for `amount` elements, once the
    /// caller has left `a` in the first run and `b` in the second. A request
    /// that is granted nothing leaves the state as it is.
    pub open spec fn written(self, amount: nat, a: Seq<T>, b: Seq<T>) -> Self {
        let n = self.write_count(amount);
        let run = self.write_run(amount);
        if n == 0 {
            self
        } else {
            RingState {
                capacity: self.capacity,
                storage: (b + self.storage.subrange(n - run, self.tail as int)) + (a
                    + self.storage.subrange((self.tail + run) as int, self.capacity as int)),
                head: self.head,
                tail: (self.tail + n) % self.capacity,
                len: self.len + n,
            }
        }
    }

    /// Number of elements a read request for `amount` elements is granted.
    pub open spec fn read_count(self, amount: nat) -> nat {
        smaller(amount, self.len)
    }

    /// Length of the first of the two runs returned by a read.
    pub open spec fn read_run(self, amount: nat) -> nat {
        self.run_to_end(self.head, self.read_count(amount))
    }

    /// The first run returned by a read: queued slots from `head` towards the
    /// physical end.
    pub open spec fn read_first(self, amount: nat) -> Seq<T> {
        self.storage.subrange(self.head as int, (self.head + self.read_run(amount)) as int)
    }

    /// The second run returned by a read: the queued slots at the physical
    /// start that the request wraps into.
    pub open spec fn read_second(self, amount: nat) -> Seq<T> {
        self.storage.subrange(0, self.read_count(amount) - self.read_run(amount))
    }

    /// The state after a read request for `amount` elements.
    pub open spec fn consumed(self, amount: nat) -> Self {
        let n = self.read_count(amount);
        RingState {
            capacity: self.capacity,
            storage: self.storage,
            head: (self.head + n) % self.capacity,
            tail: self.tail,
            len: (self.len - n) as nat,
        }
    }
}

impl<T> RingState<T> {
    /// Whether what `op` leaves in the runs it is handed has their lengths.
    pub open spec fn accepts(self, op: RingOp<T>) -> bool {
        match op {
            RingOp::Write { amount, first, second } => self.fits_write(amount, first, second),
            RingOp::Read { amount } => true,
        }
    }

    /// The state after `op`.
    pub open spec fn step(self, op: RingOp<T>) -> Self {
        match op {
            RingOp::Write { amount, first, second } => self.written(amount, first, second),
            RingOp::Read { amount } => self.consumed(amount),
        }
    }

    /// The elements that `op` puts into the buffer, in order.
    pub open spec fn put_by(self, op: RingOp<T>) -> Seq<T> {
        match op {
            RingOp::Write { amount, first, second } => first + second,
            RingOp::Read { amount } => Seq::empty(),
        }
    }

    /// The elements that `op` gets out of the buffer, in order.
    pub open spec fn got_by(self, op: RingOp<T>) -> Seq<T> {
        match op {
            RingOp::Write { amount, first, second } => Seq::empty(),
            RingOp::Read { amount } => self.read_first(amount) + self.read_second(amount),
        }
    }

    /// Whether each of `ops`, made in turn from this state on, is accepted.
    pub open spec fn accepts_all(self, ops: Seq<RingOp<T>>) -> bool
        decreases ops.len(),
    {
        if ops.len() == 0 {
            true
        } else {
            self.accepts(ops[0]) && self.step(ops[0]).accepts_all(ops.drop_first())
        }
    }

    /// The state after `ops`, made in turn from this state on.
    pub open spec fn run(self, ops: Seq<RingOp<T>>) -> Self
        decreases ops.len(),
    {
        if ops.len() == 0 {
            self
        } else {
            self.step(ops[0]).run(ops.drop_first())
        }
    }

    /// Everything that `ops` put into the buffer, in the order of the puts.
    pub open spec fn put_during(self, ops: Seq<RingOp<T>>) -> Seq<T>
        decreases ops.len(),
    {
        if ops.len() == 0 {
            Seq::empty()
        } else {
            self.put_by(ops[0]) + self.step(ops[0]).put_during(ops.drop_first())
        }
    }

    /// Everything that `ops` got out of the buffer, in the order of the gets.
    pub open spec fn got_during(self, ops: Seq<RingOp<T>>) -> Seq<T>
        decreases ops.len(),
    {
        if ops.len() == 0 {
            Seq::empty()
        } else {
            self.got_by(ops[0]) + self.step(ops[0]).got_during(ops.drop_first())
        }
    }
}

impl<T> RingState<T> {
    /// Queued and free slots always add up to the capacity.
    pub proof fn lemma_occupancy_conserved(self)
        requires
            self.wf(),
        ensures
            self.len + self.space() == self.capacity,
    {
    }

    /// A write never grants more than was asked for nor more than is free,
    /// grants the whole request where it fits, and its first run ends at or
    /// before the physical end of the storage.
    pub proof fn lemma_write_is_clamped(self, amount: nat)
        requires
            self.wf(),
        ensures
            self.write_count(amount) <= amount,
            self.write_count(amount) <= self.space(),
            amount <= self.space() ==> self.write_count(amount) == amount,
            self.write_first(amount).len() + self.write_second(amount).len() == self.write_count(
                amount,
            ),
            self.tail + self.write_first(amount).len() <= self.capacity,
            self.write_second(amount).len() <= self.tail,
    {
        lemma_wrap_once((self.head + self.len) as int, self.capacity as int);
    }

    /// A read never grants more than was asked for nor more than is queued,
    /// grants the whole request where it fits, and its first run ends at or
    /// before the physical end of the storage.
    pub proof fn lemma_read_is_clamped(self, amount: nat)
        requires
            self.wf(),
        ensures
            self.read_count(amount) <= amount,
            self.read_count(amount) <= self.len,
            amount <= self.len ==> self.read_count(amount) == amount,
            self.read_first(amount).len() + self.read_second(amount).len() == self.read_count(
                amount,
            ),
            self.head + self.read_first(amount).len() <= self.capacity,
    {
        lemma_wrap_once((self.head + self.len) as int, self.capacity as int);
    }

    /// Where the backing storage stands after a write: the first run holds
    /// `a` from `tail` on, the second holds `b` from the physical start on,
    /// and every other slot is untouched.
    pub proof fn lemma_written_storage(self, amount: nat, a: Seq<T>, b: Seq<T>)
        requires
            self.wf(),
            self.fits_write(amount, a, b),
        ensures
            self.written(amount, a, b).storage.len() == self.capacity,
            forall|i: int|
                0 <= i < self.capacity ==> #[trigger] self.written(amount, a, b).storage[i] == (
                if self.tail <= i < self.tail + a.len() {
                    a[i - self.tail]
                } else if i < b.len() {
                    b[i]
                } else {
                    self.storage[i]
                }),
    {
        self.lemma_write_is_clamped(amount);
    }

    /// A write keeps the invariant, leaves `head` and the capacity alone and
    /// adds the granted count to `len`; occupancy stays conserved.
    pub proof fn lemma_write_keeps_invariant(self, amount: nat, a: Seq<T>, b: Seq<T>)
        requires
            self.wf(),
            self.fits_write(amount, a, b),
        ensures
            self.written(amount, a, b).wf(),
            self.written(amount, a, b).capacity == self.capacity,
            self.written(amount, a, b).head == self.head,
            self.written(amount, a, b).len == self.len + self.write_count(amount),
            self.written(amount, a, b).len + self.written(amount, a, b).space() == self.capacity,
    {
        let n = self.write_count(amount);
        self.lemma_write_is_clamped(amount);
        self.lemma_written_storage(amount, a, b);
        lemma_wrap_once((self.head + self.len) as int, self.capacity as int);
        lemma_wrap_once((self.tail + n) as int, self.capacity as int);
        lemma_wrap_once((self.head + self.len + n) as int, self.capacity as int);
    }

    /// A read keeps the invariant, leaves `tail`, the capacity and the
    /// storage alone and takes the granted count from `len`; occupancy stays
    /// conserved.
    pub proof fn lemma_read_keeps_invariant(self, amount: nat)
        requires
            self.wf(),
        ensures
            self.consumed(amount).wf(),
            self.consumed(amount).capacity == self.capacity,
            self.consumed(amount).tail == self.tail,
            self.consumed(amount).storage == self.storage,
            self.consumed(amount).len == self.len - self.read_count(amount),
            self.consumed(amount).len + self.consumed(amount).space() == self.capacity,
    {
        let n = self.read_count(amount);
        lemma_wrap_once((self.head + self.len) as int, self.capacity as int);
        lemma_wrap_once((self.head + n) as int, self.capacity as int);
        lemma_wrap_once(((self.head + n) % self.capacity + (self.len - n)) as int, self.capacity as int);
    }

    /// What is written joins the queue behind what was there, first run
    /// before second, and nothing queued is disturbed.
    pub proof fn lemma_write_appends(self, amount: nat, a: Seq<T>, b: Seq<T>)
        requires
            self.wf(),
            self.fits_write(amount, a, b),
        ensures
            self.written(amount, a, b).contents() == self.contents() + a + b,
    {
        let after = self.written(amount, a, b);
        let joined = self.contents() + a + b;
        self.lemma_write_is_clamped(amount);
        self.lemma_written_storage(amount, a, b);
        self.lemma_write_keeps_invariant(amount, a, b);
        lemma_wrap_once((self.head + self.len) as int, self.capacity as int);
        assert forall|i: int| 0 <= i < after.len implies after.contents()[i] == joined[i] by {
            lemma_wrap_once((self.head + i) as int, self.capacity as int);
        }
        assert(after.contents() =~= joined);
    }

    /// A read returns the oldest queued elements in queue order, first run
    /// before second, and leaves the rest queued in the same order.
    pub proof fn lemma_read_takes_front(self, amount: nat)
        requires
            self.wf(),
        ensures
            self.read_first(amount) + self.read_second(amount) == self.contents().subrange(
                0,
                self.read_count(amount) as int,
            ),
            self.consumed(amount).contents() == self.contents().subrange(
                self.read_count(amount) as int,
                self.len as int,
            ),
    {
        let n = self.read_count(amount);
        let after = self.consumed(amount);
        let taken = self.read_first(amount) + self.read_second(amount);
        self.lemma_read_is_clamped(amount);
        self.lemma_read_keeps_invariant(amount);
        lemma_wrap_once((self.head + self.len) as int, self.capacity as int);
        lemma_wrap_once((self.head + n) as int, self.capacity as int);
        assert forall|i: int| 0 <= i < n implies taken[i] == self.contents()[i] by {
            lemma_wrap_once((self.head + i) as int, self.capacity as int);
        }
        assert(taken =~= self.contents().subrange(0, n as int));
        assert forall|i: int| 0 <= i < after.len implies after.contents()[i] == self.contents()[n
            + i] by {
            lemma_wrap_once((after.head + i) as int, self.capacity as int);
            lemma_wrap_once((self.head + n + i) as int, self.capacity as int);
        }
        assert(after.contents() =~= self.contents().subrange(n as int, self.len as int));
    }

    /// First in, first out: a read that follows a write returns the front
    /// of the old queue extended by what was written, and leaves the rest.
    pub proof fn lemma_first_in_first_out(
        self,
        written_amount: nat,
        a: Seq<T>,
        b: Seq<T>,
        read_amount: nat,
    )
        requires
            self.wf(),
            self.fits_write(written_amount, a, b),
        ensures
            ({
                let queue = self.contents() + a + b;
                let after = self.written(written_amount, a, b);
                let n = after.read_count(read_amount);
                &&& n == smaller(read_amount, queue.len())
                &&& after.read_first(read_amount) + after.read_second(read_amount)
                    == queue.subrange(0, n as int)
                &&& after.consumed(read_amount).contents() == queue.subrange(
                    n as int,
                    queue.len() as int,
                )
            }),
    {
        let after = self.written(written_amount, a, b);
        self.lemma_write_keeps_invariant(written_amount, a, b);
        self.lemma_write_appends(written_amount, a, b);
        after.lemma_read_takes_front(read_amount);
    }

    /// Over any run of writes and reads nothing is lost, doubled or
    /// reordered: what was read, followed by what is still queued, is what
    /// was queued at the start followed by what was written. The invariant
    /// holds after every such run, and occupancy stays conserved.
    pub proof fn lemma_nothing_lost(self, ops: Seq<RingOp<T>>)
        requires
            self.wf(),
            self.accepts_all(ops),
        ensures
            self.run(ops).wf(),
            self.run(ops).capacity == self.capacity,
            self.run(ops).len + self.run(ops).space() == self.capacity,
            self.got_during(ops) + self.run(ops).contents() == self.contents() + self.put_during(
                ops,
            ),
        decreases ops.len(),
    {
        if ops.len() == 0 {
            assert(self.got_during(ops) + self.run(ops).contents() =~= self.contents()
                + self.put_during(ops));
        } else {
            let next = self.step(ops[0]);
            let rest = ops.drop_first();
            let queued = self.contents();
            let got = next.got_during(rest);
            let put = next.put_during(rest);
            let left = next.run(rest).contents();
            match ops[0] {
                RingOp::Write { amount, first, second } => {
                    self.lemma_write_keeps_invariant(amount, first, second);
                    self.lemma_write_appends(amount, first, second);
                    next.lemma_nothing_lost(rest);
                    assert(self.got_during(ops) =~= got);
                    assert(queued + self.put_during(ops) =~= (queued + first + second) + put);
                },
                RingOp::Read { amount } => {
                    let n = self.read_count(amount) as int;
                    self.lemma_read_keeps_invariant(amount);
                    self.lemma_read_takes_front(amount);
                    next.lemma_nothing_lost(rest);
                    assert(self.put_during(ops) =~= put);
                    assert(self.got_during(ops) + left =~= queued.subrange(0, n) + (got + left));
                    assert(queued.subrange(0, n) + (queued.subrange(n, self.len as int) + put)
                        =~= queued + put);
                },
            }
        }
    }

    /// A request for nothing changes nothing and hands out two empty runs.
    pub proof fn lemma_zero_request_is_noop(self, a: Seq<T>, b: Seq<T>)
        requires
            self.wf(),
        ensures
            self.write_first(0).len() == 0,
            self.write_second(0).len() == 0,
            self.written(0, a, b) == self,
            self.read_first(0).len() == 0,
            self.read_second(0).len() == 0,
            self.consumed(0) == self,
    {
        lemma_wrap_once(self.head as int, self.capacity as int);
    }

    /// A write to a full buffer changes nothing and hands out two empty
    /// runs, whatever was asked for.
    pub proof fn lemma_write_when_full_is_noop(self, amount: nat, a: Seq<T>, b: Seq<T>)
        requires
            self.wf(),
            self.len == self.capacity,
        ensures
            self.write_first(amount).len() == 0,
            self.write_second(amount).len() == 0,
            self.written(amount, a, b) == self,
    {
    }

    /// A read from an empty buffer changes nothing and returns two empty
    /// runs, whatever was asked for.
    pub proof fn lemma_read_when_empty_is_noop(self, amount: nat)
        requires
            self.wf(),
            self.len == 0,
        ensures
            self.read_first(amount).len() == 0,
            self.read_second(amount).len() == 0,
            self.consumed(amount) == self,
    {
        lemma_wrap_once(self.head as int, self.capacity as int);
    }

    /// A write that crosses the physical end is split exactly there: the
    /// first run is every slot from `tail` to the end, the second the
    /// remainder from the physical start.
    pub proof fn lemma_write_splits_at_end(self, amount: nat)
        requires
            self.wf(),
            self.tail + self.write_count(amount) > self.capacity,
        ensures
            self.write_first(amount) == self.storage.subrange(
                self.tail as int,
                self.capacity as int,
            ),
            self.write_second(amount) == self.storage.subrange(
                0,
                self.tail + self.write_count(amount) - self.capacity,
            ),
            self.write_first(amount).len() + self.write_second(amount).len() == self.write_count(
                amount,
            ),
    {
        self.lemma_write_is_clamped(amount);
    }

    /// A read that crosses the physical end is split exactly there: the
    /// first run is every slot from `head` to the end, the second the
    /// remainder from the physical start.
    pub proof fn lemma_read_splits_at_end(self, amount: nat)
        requires
            self.wf(),
            self.head + self.read_count(amount) > self.capacity,
        ensures
            self.read_first(amount) == self.storage.subrange(
                self.head as int,
                self.capacity as int,
            ),
            self.read_second(amount) == self.storage.subrange(
                0,
                self.head + self.read_count(amount) - self.capacity,
            ),
            self.read_first(amount).len() + self.read_second(amount).len() == self.read_count(
                amount,
            ),
    {
        self.lemma_read_is_clamped(amount);
    }
}

/// A cursor that has advanced by at most one lap wraps by one subtraction.
pub proof fn lemma_wrap_once(x: int, m: int)
    requires
        0 < m,
        0 <= x < 2 * m,
    ensures
        x % m == if x < m {
            x
        } else {
            x - m
        },
{
    if x < m {
        vstd::arithmetic::div_mod::lemma_small_mod(x as nat, m as nat);
    } else {
        vstd::arithmetic::div_mod::lemma_small_mod((x - m) as nat, m as nat);
        vstd::arithmetic::div_mod::lemma_mod_sub_multiples_vanish(x, m);
    }
}

} // verus!
