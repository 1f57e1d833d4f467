use vstd::array::*;
use vstd::arithmetic::div_mod::*;
use vstd::prelude::*;
use vstd::slice::slice_subrange;

verus! {

/// Why a buffer operation was refused.
#[derive(Debug, Clone, Copy, PartialEq, Eq)]
pub enum Error {
    Empty,
    Full,
}

/// A fixed-capacity circular byte store.
///
/// The occupied bytes are the `len` bytes of `buf` starting at `offset`,
/// indices taken modulo `N`.
pub struct RingBuffer<const N: usize> {
    pub buf: [u8; N],
    pub offset: usize,
    pub len: usize,
}

/// Physical index of the `i`-th occupied byte, for `offset < n` and `i <= n`.
pub open spec fn phys(offset: int, i: int, n: int) -> int {
    if offset + i < n {
        offset + i
    } else {
        offset + i - n
    }
}

proof fn lemma_phys_is_mod(offset: int, i: int, n: int)
    requires
        0 <= offset < n,
        0 <= i <= n,
    ensures
        phys(offset, i, n) == (offset + i) % n,
        0 <= phys(offset, i, n) < n,
{
    if offset + i < n {
        lemma_small_mod((offset + i) as nat, n as nat);
    } else {
        lemma_mod_add_multiples_vanish(offset + i - n, n);
        lemma_small_mod((offset + i - n) as nat, n as nat);
    }
}

/// One single-byte operation on the occupied bytes: `Some(b)` enqueues `b`,
/// `None` dequeues the first byte.
pub open spec fn apply_op(q: Seq<u8>, op: Option<u8>) -> Seq<u8> {
    match op {
        Some(b) => q.push(b),
        None => q.drop_first(),
    }
}

/// The occupied bytes after a sequence of operations.
pub open spec fn run_ops(q: Seq<u8>, ops: Seq<Option<u8>>) -> Seq<u8>
    decreases ops.len(),
{
    if ops.len() == 0 {
        q
    } else {
        run_ops(apply_op(q, ops[0]), ops.drop_first())
    }
}

/// Every enqueue finds room and every dequeue finds a byte.
pub open spec fn ops_fit(q: Seq<u8>, ops: Seq<Option<u8>>, capacity: nat) -> bool
    decreases ops.len(),
{
    if ops.len() == 0 {
        true
    } else {
        &&& match ops[0] {
            Some(_) => q.len() < capacity,
            None => q.len() > 0,
        }
        &&& ops_fit(apply_op(q, ops[0]), ops.drop_first(), capacity)
    }
}

/// The bytes enqueued by a sequence of operations, in order.
pub open spec fn pushed(ops: Seq<Option<u8>>) -> Seq<u8>
    decreases ops.len(),
{
    if ops.len() == 0 {
        Seq::empty()
    } else {
        match ops[0] {
            Some(b) => seq![b] + pushed(ops.drop_first()),
            None => pushed(ops.drop_first()),
        }
    }
}

/// The bytes that the dequeues of a sequence of operations return, in order.
pub open spec fn popped(q: Seq<u8>, ops: Seq<Option<u8>>) -> Seq<u8>
    decreases ops.len(),
{
    if ops.len() == 0 {
        Seq::empty()
    } else {
        match ops[0] {
            Some(b) => popped(q.push(b), ops.drop_first()),
            None => seq![q[0]] + popped(q.drop_first(), ops.drop_first()),
        }
    }
}

/// `k` dequeues in a row.
pub open spec fn dequeues(k: nat) -> Seq<Option<u8>> {
    Seq::new(k, |i: int| None::<u8>)
}

/// Single-byte operations that respect the capacity behave as a FIFO queue: the bytes
/// dequeued, followed by those left, are the bytes there at first followed by those
/// enqueued; so the length is the first length plus the enqueues minus the dequeues.
pub proof fn lemma_fifo(q: Seq<u8>, ops: Seq<Option<u8>>, capacity: nat)
    requires
        q.len() <= capacity,
        ops_fit(q, ops, capacity),
    ensures
        popped(q, ops) + run_ops(q, ops) == q + pushed(ops),
        run_ops(q, ops).len() == q.len() + pushed(ops).len() - popped(q, ops).len(),
        run_ops(q, ops).len() <= capacity,
    decreases ops.len(),
{
    if ops.len() > 0 {
        let rest = ops.drop_first();
        match ops[0] {
            Some(b) => {
                lemma_fifo(q.push(b), rest, capacity);
                assert(q.push(b) + pushed(rest) =~= q + pushed(ops));
            },
            None => {
                lemma_fifo(q.drop_first(), rest, capacity);
                assert(seq![q[0]] + popped(q.drop_first(), rest) + run_ops(q.drop_first(), rest)
                    =~= seq![q[0]] + (q.drop_first() + pushed(rest)));
                assert(seq![q[0]] + (q.drop_first() + pushed(rest)) =~= q + pushed(ops));
            },
        }
    } else {
        assert(q + pushed(ops) =~= q);
        assert(popped(q, ops) + q =~= q);
    }
}

/// `k` dequeues return the first `k` bytes.
pub proof fn lemma_dequeues_take_prefix(q: Seq<u8>, k: nat)
    requires
        k <= q.len(),
    ensures
        popped(q, dequeues(k)) == q.subrange(0, k as int),
    decreases k,
{
    if k > 0 {
        assert(dequeues(k).drop_first() =~= dequeues((k - 1) as nat));
        lemma_dequeues_take_prefix(q.drop_first(), (k - 1) as nat);
        assert(seq![q[0]] + q.drop_first().subrange(0, k - 1) =~= q.subrange(0, k as int));
    } else {
        assert(q.subrange(0, 0) =~= Seq::<u8>::empty());
    }
}

/// Whatever the offset, a write that fills its whole window either fills the buffer
/// or leaves a window that spans all the free space; and a read of every occupied
/// byte that takes its whole window either empties the buffer or leaves the rest
/// contiguous. So two full windows always fill, and two always drain, a buffer.
pub proof fn lemma_fill_and_drain<const N: usize>(b: RingBuffer<N>)
    requires
        b.wf(),
    ensures
        b@.len() < N ==> 0 < b.write_len() <= N - b@.len(),
        b@.len() < N ==> {
            let filled = b.with_region(b.write_offset(), (b@.len() + b.write_len()) as int);
            &&& filled.wf()
            &&& filled@.len() == N || filled.write_len() == N - filled@.len()
        },
        b@.len() > 0 ==> 0 < b.read_len(b.len),
        ({
            let drained = b.with_region(b.read_offset(b.len), b@.len() - b.read_len(b.len) as int);
            &&& drained.wf()
            &&& drained.read_len(drained.len) == drained@.len()
        }),
{
}

/// After `congestion_alloced(k)`, with `k` at most the occupied length, one read of at
/// most `k` bytes takes all `k` of them as one slice, and they are the bytes that `k`
/// single-byte dequeues would have returned.
pub proof fn lemma_congestion_read<const N: usize>(b: RingBuffer<N>, c: RingBuffer<N>, k: usize)
    requires
        b.wf(),
        k <= b@.len(),
        RingBuffer::congestion_spec(b, c, k),
    ensures
        c.read_len(k) == k,
        c@.subrange(0, k as int) == popped(b@, dequeues(k as nat)),
{
    lemma_dequeues_take_prefix(b@, k as nat);
}

impl<const N: usize> View for RingBuffer<N> {
    type V = Seq<u8>;

    /// The occupied bytes, oldest first.
    open spec fn view(&self) -> Seq<u8> {
        Seq::new(self.len as nat, |i: int| self.buf@[phys(self.offset as int, i, N as int)])
    }
}

impl<const N: usize> Default for RingBuffer<N> {
    fn default() -> (r: Self)
        ensures
            r.wf(),
            r@ == Seq::<u8>::empty(),
            r.offset == 0,
    {
        Self::new()
    }
}

impl<const N: usize> RingBuffer<N> {
    /// The buffer's invariant: the occupied region fits in the storage.
    pub open spec fn wf(&self) -> bool {
        &&& self.len <= N
        &&& N > 0 ==> self.offset < N
        &&& N == 0 ==> self.offset == 0
    }

    /// Length of the contiguous run that a read of at most `max_len` bytes exposes.
    pub open spec fn read_len(&self, max_len: usize) -> nat {
        let m = if max_len < self.len { max_len as int } else { self.len as int };
        if self.offset + m <= N {
            m as nat
        } else {
            (N - self.offset) as nat
        }
    }

    /// Offset of the occupied region after a read of at most `max_len` bytes.
    pub open spec fn read_offset(&self, max_len: usize) -> int {
        if self.read_len(max_len) == 0 {
            self.offset as int
        } else {
            phys(self.offset as int, self.read_len(max_len) as int, N as int)
        }
    }

    /// The same storage with another occupied region.
    pub open spec fn with_region(&self, offset: int, len: int) -> Self {
        RingBuffer { buf: self.buf, offset: offset as usize, len: len as usize }
    }

    /// Offset of the occupied region once a write has begun (an empty buffer restarts at 0).
    pub open spec fn write_offset(&self) -> int {
        if self.len == 0 {
            0
        } else {
            self.offset as int
        }
    }

    /// Length of the contiguous free run right after the occupied region.
    pub open spec fn write_len(&self) -> nat {
        if self.len == 0 {
            N as nat
        } else if self.offset + self.len < N {
            (N - self.offset - self.len) as nat
        } else {
            (N - self.len) as nat
        }
    }

    /// What `congestion_alloced(k)` leaves: the same bytes, and the first `k` of them
    /// contiguous whenever they fit in the storage.
    pub open spec fn congestion_spec(old: Self, new: Self, k: usize) -> bool {
        &&& new.wf()
        &&& new@ == old@
        &&& if old.offset + k > N {
            new.offset == 0
        } else {
            new == old
        }
    }

    /// Creates an empty buffer.
    pub fn new() -> (r: Self)
        ensures
            r.wf(),
            r@ == Seq::<u8>::empty(),
            r.offset == 0,
    {
        RingBuffer { buf: array_fill_for_copy_types::<u8, N>(0), offset: 0, len: 0 }
    }

    pub fn capacity(&self) -> (r: usize)
        ensures
            r == N,
    {
        N
    }

    pub fn free_len(&self) -> (r: usize)
        requires
            self.wf(),
        ensures
            r == N - self@.len(),
    {
        self.capacity() - self.len
    }

    pub fn is_empty(&self) -> (r: bool)
        ensures
            r == (self@.len() == 0),
    {
        self.len() == 0
    }

    pub fn len(&self) -> (r: usize)
        ensures
            r == self@.len(),
    {
        self.len
    }

    pub fn is_full(&self) -> (r: bool)
        ensures
            r == (self@.len() == N),
    {
        self.len() == N
    }

    pub fn peek_one(&self) -> (r: Option<u8>)
        requires
            self.wf(),
        ensures
            r == (if self@.len() == 0 { None } else { Some(self@[0]) }),
    {
        if self.is_empty() {
            None
        } else {
            Some(self.buf[self.offset])
        }
    }

    pub fn dequeue_one(&mut self) -> (r: Option<u8>)
        requires
            old(self).wf(),
        ensures
            final(self).wf(),
            old(self)@.len() == 0 ==> r is None && final(self)@ == old(self)@,
            old(self)@.len() > 0 ==> r == Some(old(self)@[0]) && final(self)@ == old(self)@.drop_first(),
    {
        if self.is_empty() {
            None
        } else {
            let res = self.buf[self.offset];
            self.offset = self.get_index(1);
            self.len = self.len - 1;
            proof {
                assert(final(self)@ =~= old(self)@.drop_first());
            }
            Some(res)
        }
    }

    pub fn enqueue_one(&mut self, value: u8) -> (r: Result<(), Error>)
        requires
            old(self).wf(),
        ensures
            final(self).wf(),
            old(self)@.len() == N ==> r == Err::<(), Error>(Error::Full) && final(self)@ == old(self)@,
            old(self)@.len() < N ==> r is Ok && final(self)@ == old(self)@.push(value),
            final(self).offset == old(self).offset,
    {
        if self.is_full() {
            Err(Error::Full)
        } else {
            let i = self.get_index(self.len);
            self.buf[i] = value;
            self.len = self.len + 1;
            proof {
                broadcast use group_array_axioms;
                assert(final(self)@ =~= old(self)@.push(value));
            }
            Ok(())
        }
    }

    /// Makes the first `k` occupied bytes contiguous: when they would run past the end
    /// of the storage, the storage is rotated so that the first occupied byte sits at 0.
    pub fn congestion_alloced(&mut self, k: usize)
        requires
            old(self).wf(),
        ensures
            Self::congestion_spec(*old(self), *final(self), k),
    {
        if k > N - self.offset {
            let mut rotated: [u8; N] = array_fill_for_copy_types::<u8, N>(0);
            let mut i: usize = 0;
            while i < N
                invariant
                    self.wf(),
                    *self == *old(self),
                    i <= N,
                    forall|j: int| 0 <= j < i ==> #[trigger] rotated@[j] == self.buf@[phys(self.offset as int, j, N as int)],
                decreases N - i,
            {
                let src = self.get_index(i);
                rotated[i] = self.buf[src];
                i = i + 1;
            }
            self.buf = rotated;
            self.offset = 0;
            proof {
                assert(final(self)@ =~= old(self)@);
            }
        }
    }

    /// Consumes the contiguous run of at most `max_len` occupied bytes that starts at the
    /// first occupied byte and does not cross the end of the storage; `emit` sees it as one
    /// slice. Returns what `emit` returns.
    pub fn dequeue_with<R>(&mut self, max_len: usize, emit: impl FnOnce(&[u8]) -> R) -> (r: R)
        requires
            old(self).wf(),
            forall|s: &[u8]| #[trigger] call_requires(emit, (s,)),
        ensures
            final(self).wf(),
            exists|s: &[u8]|
                s@ == old(self)@.subrange(0, old(self).read_len(max_len) as int)
                    && #[trigger] call_ensures(emit, (s,), r),
            final(self)@ == old(self)@.subrange(old(self).read_len(max_len) as int, old(self)@.len() as int),
            final(self).offset == old(self).read_offset(max_len),
    {
        let m = if max_len < self.len { max_len } else { self.len };
        let len = if m <= N - self.offset { m } else { N - self.offset };
        let window = slice_subrange(array_as_slice(&self.buf), self.offset, self.offset + len);
        proof {
            assert(window@ =~= old(self)@.subrange(0, len as int));
        }
        let result = emit(window);
        if len > 0 {
            self.offset = self.get_index(len);
        }
        self.len = self.len - len;
        proof {
            assert(final(self)@ =~= old(self)@.subrange(len as int, old(self)@.len() as int));
        }
        result
    }

    /// Shows `emit` the same run that `dequeue_with(max_len, ..)` would consume, and
    /// consumes nothing. Returns what `emit` returns.
    pub fn peek_with<R>(&self, max_len: usize, emit: impl FnOnce(&[u8]) -> R) -> (r: R)
        requires
            self.wf(),
            forall|s: &[u8]| #[trigger] call_requires(emit, (s,)),
        ensures
            exists|s: &[u8]|
                s@ == self@.subrange(0, self.read_len(max_len) as int) && #[trigger] call_ensures(
                    emit,
                    (s,),
                    r,
                ),
    {
        let m = if max_len < self.len { max_len } else { self.len };
        let len = if m <= N - self.offset { m } else { N - self.offset };
        let window = slice_subrange(array_as_slice(&self.buf), self.offset, self.offset + len);
        proof {
            assert(window@ =~= self@.subrange(0, len as int));
        }
        emit(window)
    }

    /// Exposes the contiguous free run that starts right after the occupied region
    /// (an empty buffer first restarts at index 0) to `emit`, which writes a prefix of
    /// it and reports how many bytes it wrote; those bytes join the occupied region.
    /// Fails with `Full`, touching nothing, when the buffer is full.
    pub fn enqueue_with<R>(&mut self, emit: impl FnOnce(&mut [u8]) -> (usize, R)) -> (r: Result<R, Error>)
        requires
            old(self).wf(),
            forall|w: &mut [u8]| #[trigger] call_requires(emit, (w,)),
            forall|w: &mut [u8], n: usize, x: R| #[trigger] call_ensures(emit, (w,), (n, x)) ==> n <= w@.len(),
        ensures
            final(self).wf(),
            old(self)@.len() == N ==> r == Err::<R, Error>(Error::Full) && final(self)@ == old(self)@,
            old(self)@.len() < N ==> r is Ok && final(self).offset == old(self).write_offset() && exists|
                w: &mut [u8],
                n: usize,
            |
                {
                &&& w@.len() == old(self).write_len()
                &&& final(w)@.len() == w@.len()
                &&& n <= w@.len()
                &&& #[trigger] call_ensures(emit, (w,), (n, r->Ok_0))
                &&& final(self)@ == old(self)@ + final(w)@.subrange(0, n as int)
            },
    {
        if self.is_empty() {
            self.offset = 0;
        }
        if self.is_full() {
            Err(Error::Full)
        } else {
            let begin = self.get_index(self.len);
            let end = if self.len < N - self.offset { N } else { self.offset };
            let storage = ref_mut_array_unsizing_coercion(&mut self.buf);
            let (left, rest) = storage.split_at_mut(begin);
            let (window, right) = rest.split_at_mut(end - begin);
            let ghost left_bytes = left@;
            let ghost right_bytes = right@;
            let ghost window_before = window@;
            let (n, result) = emit(window);
            self.len = self.len + n;
            let r = Ok(result);
            proof {
                broadcast use group_array_axioms;
                assert(final(self).buf@ == left_bytes + final(window)@ + right_bytes);
                assert(final(self)@ =~= old(self)@ + final(window)@.subrange(0, n as int));
                assert(window_before.len() == old(self).write_len());
                assert(r->Ok_0 == result);
            }
            r
        }
    }

    /// Physical index of the `index`-th byte after `offset`.
    pub fn get_index(&self, index: usize) -> (r: usize)
        requires
            N > 0,
            self.offset < N,
        ensures
            r == (self.offset + index) % (N as int),
            index <= N ==> r == phys(self.offset as int, index as int, N as int),
    {
        let m = index % N;
        let room = N - self.offset;
        proof {
            lemma_add_mod_noop(self.offset as int, index as int, N as int);
            lemma_small_mod(self.offset as nat, N as nat);
            lemma_phys_is_mod(self.offset as int, m as int, N as int);
            if index < N {
                lemma_small_mod(index as nat, N as nat);
            } else if index == N {
                lemma_mod_self_0(N as int);
                lemma_phys_is_mod(self.offset as int, index as int, N as int);
                lemma_phys_is_mod(self.offset as int, 0, N as int);
            }
        }
        if m < room {
            self.offset + m
        } else {
            m - room
        }
    }
}

} // verus!
