//! A fixed-capacity byte queue for one producer and one consumer.
//!
//! The queue lives in a caller-supplied array. A read cursor and a write
//! cursor walk the array; each cursor is an index into the array together
//! with the parity of the number of times it has wrapped, so that a full
//! queue and an empty one can be told apart without giving up a slot. The
//! producer moves only the write cursor, the consumer only the read cursor.
use vstd::prelude::*;

verus! {

/// What a ring buffer is, apart from how it is stored: the capacity of the
/// attached array, the array index of the oldest queued byte, and the queued
/// bytes, oldest first.
pub struct RingModel {
    /// The length of the attached array; 0 when none is attached.
    pub capacity: nat,
    /// The array index of the oldest queued byte.
    pub head: nat,
    /// The queued bytes, oldest first.
    pub data: Seq<u8>,
}

impl RingModel {
    /// The queue fits the array and the head lies in it.
    pub open spec fn wf(self) -> bool {
        &&& self.data.len() <= self.capacity
        &&& self.head < self.capacity || (self.head == 0 && self.capacity == 0)
    }

    /// A ring buffer to which no array is attached.
    pub open spec fn detached() -> RingModel {
        RingModel { capacity: 0, head: 0, data: Seq::empty() }
    }

    /// A ring buffer to which an array of `capacity` bytes was just attached.
    pub open spec fn attached(capacity: nat) -> RingModel {
        RingModel { capacity, head: 0, data: Seq::empty() }
    }

    /// Whether an array is attached.
    pub open spec fn is_available(self) -> bool {
        self.capacity != 0
    }

    /// Whether no byte is queued.
    pub open spec fn is_empty(self) -> bool {
        self.data.len() == 0
    }

    /// Whether no slot is free. A ring buffer without an array is both empty
    /// and full.
    pub open spec fn is_full(self) -> bool {
        self.data.len() == self.capacity
    }

    /// The length of the longest run of queued bytes that lies in the array
    /// without wrapping, starting at the oldest byte.
    pub open spec fn readable(self) -> nat {
        if self.head + self.data.len() <= self.capacity {
            self.data.len()
        } else {
            (self.capacity - self.head) as nat
        }
    }

    /// The length of the longest run of free slots that lies in the array
    /// without wrapping, starting at the slot after the newest byte.
    pub open spec fn writable(self) -> nat {
        if self.head + self.data.len() < self.capacity {
            (self.capacity - self.head - self.data.len()) as nat
        } else {
            (self.capacity - self.data.len()) as nat
        }
    }

    /// The queue after the producer has appended `bytes`.
    pub open spec fn produce(self, bytes: Seq<u8>) -> RingModel {
        RingModel { data: self.data + bytes, ..self }
    }

    /// The queue after the consumer has released its `n` oldest bytes.
    pub open spec fn consume(self, n: nat) -> RingModel {
        RingModel {
            head: if self.head + n < self.capacity {
                self.head + n
            } else {
                (self.head + n - self.capacity) as nat
            },
            data: self.data.skip(n as int),
            ..self
        }
    }

    /// How many bytes of `src` one `push` accepts: as many as fit the run of
    /// free slots.
    pub open spec fn accepts(self, src: Seq<u8>) -> nat {
        if src.len() <= self.writable() {
            src.len()
        } else {
            self.writable()
        }
    }

    /// The queue after one `push` of `src`.
    pub open spec fn push_from(self, src: Seq<u8>) -> RingModel {
        self.produce(src.take(self.accepts(src) as int))
    }

    /// How many bytes one `pop` into a destination of `room` bytes yields: as
    /// many as the run of queued bytes holds.
    pub open spec fn yields(self, room: nat) -> nat {
        if room <= self.readable() {
            room
        } else {
            self.readable()
        }
    }

    /// The queue after one `pop` into a destination of `room` bytes.
    pub open spec fn pop_into(self, room: nat) -> RingModel {
        self.consume(self.yields(room))
    }
}

/// One step of a producer or of a consumer: a `push` of some bytes, or a
/// `pop` into a destination with room for so many.
pub enum RingOp {
    /// A push of these bytes.
    Push(Seq<u8>),
    /// A pop into a destination with room for so many bytes.
    Pop(nat),
}

/// What a run of pushes and pops leaves: the ring buffer, all bytes that the
/// pushes got accepted, in order, and all bytes that the pops yielded, in
/// order.
pub struct RingTrace {
    /// The ring buffer after the run.
    pub ring: RingModel,
    /// The bytes that the pushes got accepted, in order.
    pub pushed: Seq<u8>,
    /// The bytes that the pops yielded, in order.
    pub popped: Seq<u8>,
}

/// Runs `ops` on `ring`, first to last.
pub open spec fn run_ops(ring: RingModel, ops: Seq<RingOp>) -> RingTrace
    decreases ops.len(),
{
    if ops.len() == 0 {
        RingTrace { ring, pushed: Seq::empty(), popped: Seq::empty() }
    } else {
        let before = run_ops(ring, ops.drop_last());
        match ops.last() {
            RingOp::Push(src) => RingTrace {
                ring: before.ring.push_from(src),
                pushed: before.pushed + src.take(before.ring.accepts(src) as int),
                popped: before.popped,
            },
            RingOp::Pop(room) => RingTrace {
                ring: before.ring.pop_into(room),
                pushed: before.pushed,
                popped: before.popped + before.ring.data.take(before.ring.yields(room) as int),
            },
        }
    }
}

/// A push or a pop leaves a well-formed ring buffer well formed, and with
/// the capacity it had.
pub proof fn lemma_step_wf(ring: RingModel, op: RingOp)
    requires
        ring.wf(),
    ensures
        op matches RingOp::Push(src) ==> ring.push_from(src).wf() && ring.push_from(src).capacity
            == ring.capacity,
        op matches RingOp::Pop(room) ==> ring.pop_into(room).wf() && ring.pop_into(room).capacity
            == ring.capacity,
{
}

/// Data integrity: however pushes and pops alternate, and however often the
/// cursors wrap, the bytes popped so far followed by the bytes still queued
/// are the bytes that were queued at the start followed by the bytes pushed
/// so far. So bytes come out in the order in which they went in, none lost,
/// none twice, none changed.
pub proof fn lemma_fifo_order(ring: RingModel, ops: Seq<RingOp>)
    requires
        ring.wf(),
    ensures
        run_ops(ring, ops).ring.wf(),
        run_ops(ring, ops).ring.capacity == ring.capacity,
        run_ops(ring, ops).popped + run_ops(ring, ops).ring.data == ring.data + run_ops(
            ring,
            ops,
        ).pushed,
    decreases ops.len(),
{
    if ops.len() == 0 {
    } else {
        lemma_fifo_order(ring, ops.drop_last());
        let before = run_ops(ring, ops.drop_last());
        let after = run_ops(ring, ops);
        if let RingOp::Push(src) = ops.last() {
            let part = src.take(before.ring.accepts(src) as int);
            assert(ring.data + after.pushed =~= (ring.data + before.pushed) + part);
        }
    }
}

/// A push into a full buffer accepts nothing and changes nothing; any push
/// leaves the bytes that were queued where they were, and never queues more
/// than the capacity.
pub proof fn lemma_push_keeps_unread(ring: RingModel, src: Seq<u8>)
    requires
        ring.wf(),
    ensures
        ring.is_full() ==> ring.accepts(src) == 0 && ring.push_from(src) == ring,
        ring.push_from(src).data.take(ring.data.len() as int) == ring.data,
        ring.push_from(src).data.len() == ring.data.len() + ring.accepts(src),
        ring.push_from(src).data.len() <= ring.capacity,
        ring.push_from(src).head == ring.head,
{
}

/// A pop from an empty buffer yields nothing and changes nothing; any pop
/// yields no more than is queued, and leaves the rest queued in order.
pub proof fn lemma_pop_never_under_reads(ring: RingModel, room: nat)
    requires
        ring.wf(),
    ensures
        ring.is_empty() ==> ring.yields(room) == 0 && ring.pop_into(room) == ring,
        ring.yields(room) <= ring.data.len(),
        ring.yields(room) <= room,
        ring.data.take(ring.yields(room) as int) + ring.pop_into(room).data == ring.data,
{
    if ring.is_empty() {
        assert(ring.pop_into(room).data =~= ring.data);
    }
}

/// A push stops at the end of the array, so it may accept only a part of
/// what would fit. A second push of the rest then accepts all that still
/// fits: bytes that do not exceed the free space are queued, in order, by at
/// most two pushes.
pub proof fn lemma_push_twice_fills(ring: RingModel, src: Seq<u8>)
    requires
        ring.wf(),
        src.len() <= ring.capacity - ring.data.len(),
    ensures
        ({
            let first = ring.accepts(src);
            let rest = src.skip(first as int);
            let once = ring.push_from(src);
            &&& once.accepts(rest) == rest.len()
            &&& once.push_from(rest).data == ring.data + src
        }),
{
}

/// The array index that lies `i` slots after `head` in an array of
/// `capacity` slots.
pub open spec fn slot(head: int, i: int, capacity: int) -> int {
    if head + i < capacity {
        head + i
    } else {
        head + i - capacity
    }
}

/// A position in the attached array, with the parity of the number of times
/// it has wrapped round the array.
#[derive(Clone, Copy)]
struct Cursor {
    index: usize,
    lap: bool,
}

impl Cursor {
    /// The cursor `n` slots further on in an array of `capacity` slots.
    fn advance(self, n: usize, capacity: usize) -> (r: Cursor)
        requires
            self.index + n <= capacity,
        ensures
            n == 0 ==> r == self,
            self.index + n < capacity ==> r.index == self.index + n && r.lap == self.lap,
            n > 0 && self.index + n == capacity ==> r.index == 0 && r.lap != self.lap,
    {
        if n == 0 {
            self
        } else if capacity - self.index == n {
            Cursor { index: 0, lap: !self.lap }
        } else {
            Cursor { index: self.index + n, lap: self.lap }
        }
    }
}

/// Whether `storage` is the array of `ring`: it has the capacity of the ring
/// buffer, and each queued byte lies in its slot.
pub open spec fn holds(storage: Seq<u8>, ring: RingModel) -> bool {
    &&& storage.len() == ring.capacity
    &&& forall|i: int|
        0 <= i < ring.data.len() ==> storage[slot(ring.head as int, i, ring.capacity as int)]
            == #[trigger] ring.data[i]
}

/// A byte queue of fixed capacity in an attached array.
pub struct RingBuffer {
    buf: Vec<u8>,
    start: Cursor,
    end: Cursor,
}

impl View for RingBuffer {
    type V = RingModel;

    closed spec fn view(&self) -> RingModel {
        RingModel {
            capacity: self.buf@.len(),
            head: self.start.index as nat,
            data: Seq::new(
                self.queued(),
                |i: int| self.buf@[slot(self.start.index as int, i, self.buf@.len() as int)],
            ),
        }
    }
}

impl RingBuffer {
    /// The cursors lie in the attached array and the read cursor is not ahead
    /// of the write cursor.
    #[verifier::type_invariant]
    pub closed spec fn inv(self) -> bool {
        &&& self.start.index < self.buf@.len() || (self.start.index == 0 && self.buf@.len() == 0)
        &&& self.end.index < self.buf@.len() || (self.end.index == 0 && self.buf@.len() == 0)
        &&& self.start.lap == self.end.lap ==> self.start.index <= self.end.index
        &&& self.start.lap != self.end.lap ==> self.end.index <= self.start.index
        &&& self.buf@.len() == 0 ==> self.start.lap == self.end.lap
    }

    /// The number of queued bytes, from the two cursors.
    spec fn queued(self) -> nat {
        if self.start.lap == self.end.lap {
            (self.end.index - self.start.index) as nat
        } else {
            (self.buf@.len() - self.start.index + self.end.index) as nat
        }
    }

    /// A ring buffer that meets its invariant has a well-formed model.
    pub proof fn lemma_wf(self)
        requires
            self.inv(),
        ensures
            self@.wf(),
    {
    }

    /// Create a new ring buffer with no array attached.
    pub fn new() -> (r: Self)
        ensures
            r@ == RingModel::detached(),
    {
        let r = RingBuffer {
            buf: Vec::new(),
            start: Cursor { index: 0, lap: false },
            end: Cursor { index: 0, lap: false },
        };
        assert(r@.data =~= Seq::empty());
        r
    }

    /// Attaches `storage` as the backing array. The queue starts empty; an
    /// array that was attached before is dropped with what it held.
    pub fn attach(&mut self, storage: Vec<u8>)
        ensures
            final(self)@ == RingModel::attached(storage@.len()),
    {
        *self = RingBuffer {
            buf: storage,
            start: Cursor { index: 0, lap: false },
            end: Cursor { index: 0, lap: false },
        };
        assert(self@.data =~= Seq::empty());
    }

    /// Detaches the backing array and hands it back; the ring buffer is then
    /// as `new` made it. Without an attached array the result is empty. The
    /// bytes that were queued are still in the array, each in its slot.
    pub fn detach(&mut self) -> (storage: Vec<u8>)
        ensures
            final(self)@ == RingModel::detached(),
            holds(storage@, old(self)@),
    {
        let mut taken = RingBuffer::new();
        core::mem::swap(self, &mut taken);
        taken.buf
    }

    /// Whether an array is attached.
    pub fn is_available(&self) -> (r: bool)
        ensures
            r == self@.is_available(),
    {
        self.buf.len() != 0
    }

    /// The length of the attached array.
    pub fn capacity(&self) -> (r: usize)
        ensures
            r == self@.capacity,
    {
        self.buf.len()
    }

    /// The number of queued bytes.
    pub fn available(&self) -> (r: usize)
        ensures
            r == self@.data.len(),
    {
        proof {
            use_type_invariant(self);
        }
        if self.start.lap == self.end.lap {
            self.end.index - self.start.index
        } else {
            self.buf.len() - self.start.index + self.end.index
        }
    }

    /// Whether no byte is queued.
    pub fn is_empty(&self) -> (r: bool)
        ensures
            r == self@.is_empty(),
    {
        proof {
            use_type_invariant(self);
        }
        self.start.index == self.end.index && self.start.lap == self.end.lap
    }

    /// Whether no slot is free.
    pub fn is_full(&self) -> (r: bool)
        ensures
            r == self@.is_full(),
    {
        proof {
            use_type_invariant(self);
        }
        self.start.index == self.end.index && (self.start.lap != self.end.lap || self.buf.len()
            == 0)
    }

    /// The length of the longest run of queued bytes that does not wrap:
    /// what `peek_contiguous` shows.
    pub fn readable(&self) -> (r: usize)
        ensures
            r == self@.readable(),
    {
        proof {
            use_type_invariant(self);
        }
        if self.start.lap == self.end.lap {
            self.end.index - self.start.index
        } else {
            self.buf.len() - self.start.index
        }
    }

    /// The length of the longest run of free slots that does not wrap: how
    /// much one `push` can accept.
    pub fn writable(&self) -> (r: usize)
        ensures
            r == self@.writable(),
    {
        proof {
            use_type_invariant(self);
        }
        if self.start.lap == self.end.lap {
            self.buf.len() - self.end.index
        } else {
            self.start.index - self.end.index
        }
    }

    /// Appends one byte. Returns whether there was a free slot for it.
    pub fn push_one(&mut self, byte: u8) -> (pushed: bool)
        ensures
            pushed == !old(self)@.is_full(),
            pushed ==> final(self)@ == old(self)@.produce(seq![byte]),
            !pushed ==> final(self)@ == old(self)@,
    {
        proof {
            use_type_invariant(&*self);
        }
        if self.writable() == 0 {
            return false;
        }
        let at: usize = self.end.index;
        self.buf[at] = byte;
        self.end = self.end.advance(1, self.buf.len());
        assert(self@.data =~= old(self)@.data + seq![byte]);
        true
    }

    /// Removes and returns the oldest byte, if there is one.
    pub fn pop_one(&mut self) -> (popped: Option<u8>)
        ensures
            old(self)@.is_empty() ==> popped is None && final(self)@ == old(self)@,
            !old(self)@.is_empty() ==> popped == Some(old(self)@.data[0]) && final(self)@ == old(
                self,
            )@.consume(1),
    {
        proof {
            use_type_invariant(&*self);
        }
        if self.readable() == 0 {
            return None;
        }
        let byte: u8 = self.buf[self.start.index];
        self.start = self.start.advance(1, self.buf.len());
        assert(self@.data =~= old(self)@.data.skip(1));
        Some(byte)
    }

    /// Copies bytes from the front of `src` into the run of free slots and
    /// appends them to the queue: as many as `src` holds and the run has room
    /// for. Returns how many; 0 says that the buffer is full (or `src` empty).
    pub fn push_from(&mut self, src: &[u8]) -> (n: usize)
        ensures
            n == old(self)@.accepts(src@),
            final(self)@ == old(self)@.push_from(src@),
            old(self)@.is_full() ==> n == 0 && final(self)@ == old(self)@,
    {
        proof {
            use_type_invariant(&*self);
        }
        let room: usize = self.writable();
        let n: usize = if src.len() <= room {
            src.len()
        } else {
            room
        };
        let at: usize = self.end.index;
        let cap: usize = self.buf.len();
        let mut k: usize = 0;
        while k < n
            invariant
                k <= n,
                n <= src@.len(),
                at == self.end.index,
                at + n <= cap,
                cap == self.buf@.len(),
                self.start == old(self).start,
                self.end == old(self).end,
                self.buf@.len() == old(self).buf@.len(),
                n <= old(self)@.writable(),
                old(self).inv(),
                forall|j: int|
                    0 <= j < self.buf@.len() && !(at <= j < at + k) ==> self.buf@[j] == old(
                        self,
                    ).buf@[j],
                forall|j: int| 0 <= j < k ==> self.buf@[at + j] == src@[j],
            decreases n - k,
        {
            self.buf[at + k] = src[k];
            k = k + 1;
        }
        self.end = self.end.advance(n, self.buf.len());
        assert(self@.data =~= old(self)@.data + src@.take(n as int));
        n
    }

    /// Copies the oldest queued bytes to the front of `dst` and removes them
    /// from the queue: as many as the run of queued bytes holds and `dst` has
    /// room for. Returns how many; 0 says that the buffer is empty (or `dst`
    /// has no room). The rest of `dst` is left as it was.
    pub fn pop_into(&mut self, dst: &mut [u8]) -> (n: usize)
        ensures
            n == old(self)@.yields(old(dst)@.len()),
            final(self)@ == old(self)@.pop_into(old(dst)@.len()),
            final(dst)@ == old(self)@.data.take(n as int) + old(dst)@.skip(n as int),
            old(self)@.is_empty() ==> n == 0 && final(self)@ == old(self)@ && final(dst)@ == old(
                dst,
            )@,
    {
        proof {
            use_type_invariant(&*self);
        }
        let run: usize = self.readable();
        let n: usize = if dst.len() <= run {
            dst.len()
        } else {
            run
        };
        let at: usize = self.start.index;
        let cap: usize = self.buf.len();
        let mut k: usize = 0;
        while k < n
            invariant
                k <= n,
                n <= dst@.len(),
                dst@.len() == old(dst)@.len(),
                at == self.start.index,
                at + n <= cap,
                cap == self.buf@.len(),
                *self == *old(self),
                n <= old(self)@.readable(),
                old(self).inv(),
                forall|j: int| 0 <= j < k ==> dst@[j] == self.buf@[at + j],
                forall|j: int| k <= j < dst@.len() ==> dst@[j] == old(dst)@[j],
            decreases n - k,
        {
            dst[k] = self.buf[at + k];
            k = k + 1;
        }
        self.start = self.start.advance(n, self.buf.len());
        assert(self@.data =~= old(self)@.data.skip(n as int));
        n
    }

    /// Hands the run of free slots to `writer`, which writes bytes to its
    /// front and returns how many, and appends that many to the queue.
    /// Returns the number; 0 says that nothing was written. What `writer`
    /// leaves behind the bytes that it counts is not queued.
    pub fn push<F: FnOnce(&mut [u8]) -> usize>(&mut self, writer: F) -> (n: usize)
        requires
            forall|run: &mut [u8]|
                run@.len() == old(self)@.writable() ==> call_requires(writer, (run,)),
            forall|run: &mut [u8], n: usize|
                run@.len() == old(self)@.writable() && call_ensures(writer, (run,), n) ==> n
                    <= run@.len() && final(run)@.len() == run@.len(),
        ensures
            n <= old(self)@.writable(),
            old(self)@.is_full() ==> n == 0 && final(self)@ == old(self)@,
            exists|run: &mut [u8]|
                run@.len() == old(self)@.writable() && call_ensures(writer, (run,), n)
                    && final(self)@ == old(self)@.produce(final(run)@.take(n as int)),
    {
        proof {
            use_type_invariant(&*self);
        }
        let room: usize = self.writable();
        let mut taken = RingBuffer::new();
        core::mem::swap(self, &mut taken);
        let RingBuffer { buf, start, end } = taken;
        let mut buf = buf;
        let at: usize = end.index;
        let whole = buf.as_mut_slice();
        let (_, tail) = whole.split_at_mut(at);
        let (run, _) = tail.split_at_mut(room);
        let ghost given = run;
        let n: usize = writer(run);
        let cap: usize = buf.len();
        *self = RingBuffer { buf, start, end: end.advance(n, cap) };
        assert(self@.data =~= old(self)@.data + final(given)@.take(n as int));
        if n == 0 {
        }
        n
    }

    /// Hands the run of queued bytes to `reader`, which takes bytes from its
    /// front and returns how many, and removes that many from the queue.
    /// Returns the number; 0 says that nothing was taken.
    pub fn pop<F: FnOnce(&[u8]) -> usize>(&mut self, reader: F) -> (n: usize)
        requires
            forall|run: &[u8]|
                run@ == old(self)@.data.take(old(self)@.readable() as int) ==> call_requires(
                    reader,
                    (run,),
                ),
            forall|run: &[u8], n: usize|
                run@ == old(self)@.data.take(old(self)@.readable() as int) && call_ensures(
                    reader,
                    (run,),
                    n,
                ) ==> n <= run@.len(),
        ensures
            n <= old(self)@.readable(),
            final(self)@ == old(self)@.consume(n as nat),
            old(self)@.is_empty() ==> n == 0 && final(self)@ == old(self)@,
            exists|run: &[u8]|
                run@ == old(self)@.data.take(old(self)@.readable() as int) && call_ensures(
                    reader,
                    (run,),
                    n,
                ),
    {
        proof {
            use_type_invariant(&*self);
        }
        let run = self.peek_contiguous();
        let n: usize = reader(run);
        self.commit_consumed(n);
        if n == 0 {
            assert(self@.data =~= old(self)@.data);
        }
        n
    }

    /// Shows the longest run of queued bytes that does not wrap, oldest
    /// first, without removing anything.
    pub fn peek_contiguous(&self) -> (run: &[u8])
        ensures
            run@ == self@.data.take(self@.readable() as int),
    {
        proof {
            use_type_invariant(self);
        }
        let n: usize = self.readable();
        let at: usize = self.start.index;
        assert(at + n <= self.buf.len());
        let run = vstd::slice::slice_subrange(self.buf.as_slice(), at, at + n);
        run
    }

    /// Releases the `amount` oldest bytes, which the consumer has taken from
    /// what `peek_contiguous` showed.
    pub fn commit_consumed(&mut self, amount: usize)
        requires
            amount <= old(self)@.readable(),
        ensures
            final(self)@ == old(self)@.consume(amount as nat),
    {
        proof {
            use_type_invariant(&*self);
        }
        self.start = self.start.advance(amount, self.buf.len());
        assert(self@.data =~= old(self)@.data.skip(amount as int));
    }
}

} // verus!
