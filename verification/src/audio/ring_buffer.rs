//! Single-producer, single-consumer ring buffer.
//!
//! The buffer is the only thing that the decoder and the render callback
//! share. It is a fixed array whose capacity is a power of two and two
//! counters that only ever grow (modulo 2^64): `write_pos` counts every
//! sample ever written, `read_pos` every sample ever read. A counter masked
//! by `capacity - 1` is a position in the array, and `write_pos - read_pos`
//! (wrapping) is the number of samples queued.
//!
//! A write or a read moves its samples with at most two block copies, never
//! one element at a time, and nothing is allocated after construction.
//!
//! Seen from outside, the buffer is a queue: its view is the sequence of
//! samples written and not yet read, oldest first.

use vstd::prelude::*;

verus! {

/// Size of the cache line that each counter of a shared ring buffer should
/// own, in bytes: large enough for every supported processor.
pub const CACHE_LINE_SIZE: usize = 128;

/// `c` is a power of two.
pub open spec fn is_power_of_two(c: u64) -> bool {
    c > 0 && c & ((c - 1) as u64) == 0
}

/// Position `start + i` in an array of `capacity` slots, wrapped once.
pub open spec fn wrap_index(start: int, i: int, capacity: int) -> int {
    if start + i < capacity {
        start + i
    } else {
        start + i - capacity
    }
}

/// The queue after a write of `data` into a queue bounded by `capacity`:
/// as much of `data` as there is room for is appended.
pub open spec fn queue_after_write<T>(queue: Seq<T>, capacity: int, data: Seq<T>) -> Seq<T> {
    queue + data.take(accepted_len(queue.len() as int, capacity, data.len() as int))
}

/// How many of `offered` samples a queue of `queued` samples takes.
pub open spec fn accepted_len(queued: int, capacity: int, offered: int) -> int {
    if offered <= capacity - queued {
        offered
    } else {
        capacity - queued
    }
}

/// How many samples a read of `wanted` samples gets from `queued`.
pub open spec fn delivered_len(queued: int, wanted: int) -> int {
    if wanted <= queued {
        wanted
    } else {
        queued
    }
}

/// Masking a counter by `c - 1` gives a position below `c`, and advancing
/// the counter by `k <= c` (modulo 2^64) advances the position by `k`,
/// wrapped once.
proof fn lemma_masked_advance(x: u64, k: u64, c: u64)
    requires
        is_power_of_two(c),
        k <= c,
    ensures
        (x & ((c - 1) as u64)) < c,
        x.wrapping_add(k) & ((c - 1) as u64) == wrap_index(
            (x & ((c - 1) as u64)) as int,
            k as int,
            c as int,
        ),
{
    let m = (c - 1) as u64;
    let y = x.wrapping_add(k);
    assert(y == (x + k) as u64) by (bit_vector)
        requires
            y == (if x + k > 0xffff_ffff_ffff_ffff {
                (x + k - 0x1_0000_0000_0000_0000) as u64
            } else {
                (x + k) as u64
            }),
    ;
    assert((x & m) < c && (((x + k) as u64) & m) == (if (x & m) + k < c {
        (x & m) + k
    } else {
        (x & m) + k - c
    })) by (bit_vector)
        requires
            c > 0,
            c & m == 0,
            m == (c - 1) as u64,
            k <= c,
    ;
}

/// Twice a power of two is a power of two.
proof fn lemma_double_power_of_two(c: u64)
    requires
        is_power_of_two(c),
        c <= 0x7fff_ffff_ffff_ffff,
    ensures
        is_power_of_two((2 * c) as u64),
{
    let d = (2 * c) as u64;
    assert(d > 0 && d & ((d - 1) as u64) == 0) by (bit_vector)
        requires
            c > 0,
            c & ((c - 1) as u64) == 0,
            c <= 0x7fff_ffff_ffff_ffff,
            d == (2 * c) as u64,
    ;
}

/// Where a write of `n` samples lands: after at most two block copies,
/// the slots that follow the queue hold the new samples, in order, and the
/// slots of the queue hold what they held.
proof fn lemma_write_layout<T>(
    b0: Seq<T>,
    b1: Seq<T>,
    b2: Seq<T>,
    data: Seq<T>,
    cap: int,
    ridx: int,
    used: int,
    n: int,
    first: int,
)
    requires
        0 <= ridx < cap,
        0 <= used,
        0 < n <= data.len(),
        used + n <= cap,
        b0.len() == cap,
        first == if cap - wrap_index(ridx, used, cap) <= n {
            cap - wrap_index(ridx, used, cap)
        } else {
            n
        },
        b1 == b0.take(wrap_index(ridx, used, cap)) + data.subrange(0, first) + b0.skip(
            wrap_index(ridx, used, cap) + first,
        ),
        b2 == if n - first > 0 {
            b1.take(0) + data.subrange(first, n) + b1.skip(n - first)
        } else {
            b1
        },
    ensures
        b2.len() == cap,
        forall|i: int| 0 <= i < used ==> b2[wrap_index(ridx, i, cap)] == b0[wrap_index(ridx, i, cap)],
        forall|j: int| 0 <= j < n ==> b2[wrap_index(ridx, used + j, cap)] == data[j],
{
    let widx = wrap_index(ridx, used, cap);
    assert(b1.len() == cap);
    assert(b2.len() == cap);
    assert forall|i: int| 0 <= i < used implies b2[wrap_index(ridx, i, cap)] == b0[wrap_index(
        ridx,
        i,
        cap,
    )] by {
        let k = wrap_index(ridx, i, cap);
        assert(b1[k] == b0[k]);
    }
    assert forall|j: int| 0 <= j < n implies b2[wrap_index(ridx, used + j, cap)] == data[j] by {
        let k = wrap_index(ridx, used + j, cap);
        if j < first {
            assert(k == widx + j);
            assert(b1[k] == data.subrange(0, first)[j]);
        } else {
            assert(k == j - first);
            assert(b2[k] == data.subrange(first, n)[j - first]);
        }
    }
}

/// Where a read of `n` samples comes from: after at most two block
/// copies, the front of the output holds the front of the queue.
proof fn lemma_read_layout<T>(
    buffer: Seq<T>,
    queue: Seq<T>,
    o0: Seq<T>,
    o1: Seq<T>,
    o2: Seq<T>,
    cap: int,
    ridx: int,
    n: int,
    first: int,
)
    requires
        0 <= ridx < cap,
        buffer.len() == cap,
        0 < n <= queue.len(),
        queue.len() <= cap,
        n <= o0.len(),
        forall|i: int| 0 <= i < queue.len() ==> queue[i] == buffer[wrap_index(ridx, i, cap)],
        first == if cap - ridx <= n {
            cap - ridx
        } else {
            n
        },
        o1 == o0.take(0) + buffer.subrange(ridx, ridx + first) + o0.skip(first),
        o2 == if n - first > 0 {
            o1.take(first) + buffer.subrange(0, n - first) + o1.skip(n)
        } else {
            o1
        },
    ensures
        o2 == queue.take(n) + o0.skip(n),
{
    assert(o1.len() == o0.len());
    assert(o2.len() == o0.len());
    assert forall|j: int| 0 <= j < o0.len() implies o2[j] == (queue.take(n) + o0.skip(n))[j] by {
        if j < first {
            assert(wrap_index(ridx, j, cap) == ridx + j);
            assert(o1[j] == buffer.subrange(ridx, ridx + first)[j]);
        } else if j < n {
            assert(wrap_index(ridx, j, cap) == j - first);
            assert(o2[j] == buffer.subrange(0, n - first)[j - first]);
        } else {
            assert(o1[j] == o0[j]);
        }
    }
    assert(o2 =~= queue.take(n) + o0.skip(n));
}

/// The smallest power of two that is at least `min` (1 for `min == 0`).
pub fn next_power_of_two(min: usize) -> (r: usize)
    requires
        min <= usize::MAX / 2 + 1,
    ensures
        is_power_of_two(r as u64),
        r >= min,
        r == 1 || r / 2 < min,
{
    let mut p: usize = 1;
    assert(is_power_of_two(1u64)) by (bit_vector);
    while p < min
        invariant
            p >= 1,
            is_power_of_two(p as u64),
            p == 1 || p / 2 < min,
            min <= usize::MAX / 2 + 1,
        decreases usize::MAX - p,
    {
        proof {
            lemma_double_power_of_two(p as u64);
        }
        p = p * 2;
    }
    p
}

/// Whether `capacity` can be the capacity of a ring buffer: whether it is a
/// power of two.
pub fn is_valid_capacity(capacity: usize) -> (r: bool)
    ensures
        r == is_power_of_two(capacity as u64),
{
    if capacity == 0 {
        false
    } else {
        let c: u64 = capacity as u64;
        c & (c - 1) == 0
    }
}

/// Copies `len` elements of `src`, from index `from`, over the elements of
/// `dst` from index `at`, with `copy_from_slice` of the standard library:
/// one block copy. The rest of `dst` is left as it was. The two ranges lie
/// inside their slices and have the same length, so the call cannot panic.
#[verifier::external_body]
fn copy_block<T: Copy>(dst: &mut [T], at: usize, src: &[T], from: usize, len: usize)
    requires
        at + len <= old(dst)@.len(),
        from + len <= src@.len(),
    ensures
        final(dst)@ == old(dst)@.take(at as int) + src@.subrange(from as int, from + len) + old(
            dst,
        )@.skip(at + len),
{
    dst[at..at + len].copy_from_slice(&src[from..from + len]);
}

/// Ring buffer of `T` with a capacity fixed at construction.
pub struct RingBuffer<T: Copy + Default> {
    buffer: Vec<T>,
    capacity: usize,
    mask: u64,
    write_pos: u64,
    read_pos: u64,
    memory_locked: bool,
}

impl<T: Copy + Default> View for RingBuffer<T> {
    type V = Seq<T>;

    /// The samples written and not yet read, oldest first.
    closed spec fn view(&self) -> Seq<T> {
        Seq::new(
            self.used() as nat,
            |i: int|
                self.buffer@[wrap_index(
                    (self.read_pos & self.mask) as int,
                    i,
                    self.capacity as int,
                )],
        )
    }
}

impl<T: Copy + Default> RingBuffer<T> {
    /// Samples queued, by the counters.
    closed spec fn used(&self) -> int {
        self.write_pos.wrapping_sub(self.read_pos) as int
    }

    /// Samples queued, as a machine word.
    pub closed spec fn spec_available(&self) -> usize {
        self.write_pos.wrapping_sub(self.read_pos) as usize
    }

    /// The capacity, in specifications.
    pub closed spec fn spec_capacity(&self) -> usize {
        self.capacity
    }

    /// Whether the storage was reported as pinned, in specifications.
    pub closed spec fn spec_memory_locked(&self) -> bool {
        self.memory_locked
    }

    /// The invariant of the buffer: the capacity is a power of two, the
    /// storage has that many slots, and no more samples are queued than
    /// fit.
    pub closed spec fn wf(&self) -> bool {
        &&& is_power_of_two(self.capacity as u64)
        &&& self.mask == self.capacity - 1
        &&& self.buffer@.len() == self.capacity
        &&& self.used() <= self.capacity
    }

    /// What the invariant means for the queue.
    pub proof fn lemma_wf(&self)
        requires
            self.wf(),
        ensures
            is_power_of_two(self.spec_capacity() as u64),
            self@.len() <= self.spec_capacity(),
            self.spec_available() == self@.len(),
    {
    }

    /// An empty buffer of `capacity` slots. The capacity must be a power of
    /// two.
    pub fn new(capacity: usize) -> (r: Self)
        requires
            is_power_of_two(capacity as u64),
        ensures
            r.wf(),
            r@ == Seq::<T>::empty(),
            r.spec_capacity() == capacity,
            !r.spec_memory_locked(),
    {
        let buffer: Vec<T> = vec![T::default(); capacity];
        let r = RingBuffer {
            buffer,
            capacity,
            mask: (capacity - 1) as u64,
            write_pos: 0,
            read_pos: 0,
            memory_locked: false,
        };
        assert(r@ =~= Seq::<T>::empty());
        r
    }

    /// An empty buffer whose capacity is `min_capacity` rounded up to a
    /// power of two.
    pub fn with_min_capacity(min_capacity: usize) -> (r: Self)
        requires
            min_capacity <= usize::MAX / 2 + 1,
        ensures
            r.wf(),
            r@ == Seq::<T>::empty(),
            r.spec_capacity() >= min_capacity,
            r.spec_capacity() == 1 || r.spec_capacity() / 2 < min_capacity,
            !r.spec_memory_locked(),
    {
        Self::new(next_power_of_two(min_capacity))
    }

    /// Whether the storage is pinned in physical memory.
    pub fn is_memory_locked(&self) -> (r: bool)
        ensures
            r == self.spec_memory_locked(),
    {
        self.memory_locked
    }

    /// The storage, as a caller pins it in memory: `capacity` slots, in
    /// no particular order.
    pub fn storage(&self) -> (slots: &[T])
        requires
            self.wf(),
        ensures
            slots@.len() == self.spec_capacity(),
    {
        self.buffer.as_slice()
    }

    /// Size of the storage in bytes, given the size of one element: what a
    /// caller pins or unpins.
    pub fn storage_bytes(&self, element_size: usize) -> (r: Option<usize>)
        ensures
            r is Some <==> self.spec_capacity() * element_size <= usize::MAX,
            r matches Some(n) ==> n == self.spec_capacity() * element_size,
    {
        self.capacity.checked_mul(element_size)
    }

    /// Records the outcome of a request to pin the storage: `status` is what
    /// the operating system returned, zero for success. A buffer that is
    /// pinned stays pinned whatever the status. Returns whether the storage
    /// is pinned now.
    pub fn lock_memory(&mut self, status: i32) -> (locked: bool)
        ensures
            locked == (old(self).spec_memory_locked() || status == 0),
            final(self).spec_memory_locked() == locked,
            final(self)@ == old(self)@,
            final(self).spec_capacity() == old(self).spec_capacity(),
            old(self).wf() ==> final(self).wf(),
    {
        if !self.memory_locked && status == 0 {
            self.memory_locked = true;
        }
        assert(self@ =~= old(self)@);
        self.memory_locked
    }

    /// Records that the storage was unpinned. Returns whether there was
    /// anything to unpin.
    pub fn unlock_memory(&mut self) -> (was_locked: bool)
        ensures
            was_locked == old(self).spec_memory_locked(),
            !final(self).spec_memory_locked(),
            final(self)@ == old(self)@,
            final(self).spec_capacity() == old(self).spec_capacity(),
            old(self).wf() ==> final(self).wf(),
    {
        let was: bool = self.memory_locked;
        self.memory_locked = false;
        assert(self@ =~= old(self)@);
        was
    }

    /// Appends as much of `data` as there is room for, and returns how many
    /// samples that was: zero when the buffer is full. Called by the
    /// producer only.
    #[verifier::rlimit(80)]
    #[verifier::spinoff_prover]
    pub fn write(&mut self, data: &[T]) -> (written: usize)
        requires
            old(self).wf(),
        ensures
            final(self).wf(),
            final(self).spec_capacity() == old(self).spec_capacity(),
            final(self).spec_memory_locked() == old(self).spec_memory_locked(),
            written == accepted_len(
                old(self)@.len() as int,
                old(self).spec_capacity() as int,
                data@.len() as int,
            ),
            final(self)@ == queue_after_write(
                old(self)@,
                old(self).spec_capacity() as int,
                data@,
            ),
    {
        let write: u64 = self.write_pos;
        let read: u64 = self.read_pos;
        let used: usize = write.wrapping_sub(read) as usize;
        let free: usize = self.capacity - used;
        let to_write: usize = if data.len() <= free { data.len() } else { free };
        if to_write == 0 {
            assert(self@ =~= queue_after_write(old(self)@, self.capacity as int, data@));
            return 0;
        }
        proof {
            lemma_masked_advance(read, used as u64, self.capacity as u64);
            lemma_masked_advance(write, to_write as u64, self.capacity as u64);
        }
        let ghost ridx = (read & self.mask) as int;
        let ghost b0 = self.buffer@;
        let write_idx: usize = (write & self.mask) as usize;
        assert(write_idx == wrap_index(ridx, used as int, self.capacity as int));
        let to_end: usize = self.capacity - write_idx;
        let first_part: usize = if to_end <= to_write { to_end } else { to_write };
        copy_block(self.buffer.as_mut_slice(), write_idx, data, 0, first_part);
        let ghost b1 = self.buffer@;
        let second_part: usize = to_write - first_part;
        if second_part > 0 {
            copy_block(self.buffer.as_mut_slice(), 0, data, first_part, second_part);
        }
        self.write_pos = write.wrapping_add(to_write as u64);
        proof {
            lemma_write_layout(
                b0,
                b1,
                self.buffer@,
                data@,
                self.capacity as int,
                ridx,
                used as int,
                to_write as int,
                first_part as int,
            );
            assert(self.used() == used + to_write);
            let expected = queue_after_write(old(self)@, self.capacity as int, data@);
            assert(self@.len() == expected.len());
            assert forall|i: int| 0 <= i < self@.len() implies self@[i] == expected[i] by {
                if i < used {
                    assert(expected[i] == old(self)@[i]);
                } else {
                    assert(expected[i] == data@[i - used]);
                }
            }
            assert(self@ =~= expected);
        }
        to_write
    }

    /// Removes up to `output.len()` samples from the front of the queue
    /// into the front of `output`, and returns how many: zero when the
    /// buffer is empty. The rest of `output` is left as it was. Called by
    /// the consumer only.
    pub fn read(&mut self, output: &mut [T]) -> (count: usize)
        requires
            old(self).wf(),
        ensures
            final(self).wf(),
            final(self).spec_capacity() == old(self).spec_capacity(),
            final(self).spec_memory_locked() == old(self).spec_memory_locked(),
            count == delivered_len(old(self)@.len() as int, old(output)@.len() as int),
            final(output)@ == old(self)@.take(count as int) + old(output)@.skip(count as int),
            final(self)@ == old(self)@.skip(count as int),
    {
        let limit: usize = output.len();
        self.read_at_most(output, limit)
    }

    /// Like [`read`](Self::read), but takes no more than `limit` samples.
    #[verifier::rlimit(80)]
    #[verifier::spinoff_prover]
    pub fn read_at_most(&mut self, output: &mut [T], limit: usize) -> (count: usize)
        requires
            old(self).wf(),
        ensures
            final(self).wf(),
            final(self).spec_capacity() == old(self).spec_capacity(),
            final(self).spec_memory_locked() == old(self).spec_memory_locked(),
            count == delivered_len(
                old(self)@.len() as int,
                if limit <= old(output)@.len() {
                    limit as int
                } else {
                    old(output)@.len() as int
                },
            ),
            final(output)@ == old(self)@.take(count as int) + old(output)@.skip(count as int),
            final(self)@ == old(self)@.skip(count as int),
    {
        let read: u64 = self.read_pos;
        let write: u64 = self.write_pos;
        let available: usize = write.wrapping_sub(read) as usize;
        let room: usize = if limit <= output.len() { limit } else { output.len() };
        let to_read: usize = if room <= available { room } else { available };
        if to_read == 0 {
            assert(self@.skip(0) =~= self@);
            assert(output@ =~= old(self)@.take(0) + old(output)@.skip(0));
            return 0;
        }
        proof {
            lemma_masked_advance(read, to_read as u64, self.capacity as u64);
        }
        let ghost ridx = (read & self.mask) as int;
        let ghost o0 = output@;
        let read_idx: usize = (read & self.mask) as usize;
        let to_end: usize = self.capacity - read_idx;
        let first_part: usize = if to_end <= to_read { to_end } else { to_read };
        copy_block(output, 0, self.buffer.as_slice(), read_idx, first_part);
        let ghost o1 = output@;
        let second_part: usize = to_read - first_part;
        if second_part > 0 {
            copy_block(output, first_part, self.buffer.as_slice(), 0, second_part);
        }
        self.read_pos = read.wrapping_add(to_read as u64);
        proof {
            lemma_read_layout(
                self.buffer@,
                old(self)@,
                o0,
                o1,
                output@,
                self.capacity as int,
                ridx,
                to_read as int,
                first_part as int,
            );
            assert(self.used() == available - to_read);
            let rest = old(self)@.skip(to_read as int);
            assert(self@.len() == rest.len());
            assert forall|i: int| 0 <= i < self@.len() implies self@[i] == rest[i] by {
                assert(wrap_index(
                    wrap_index(ridx, to_read as int, self.capacity as int),
                    i,
                    self.capacity as int,
                ) == wrap_index(ridx, to_read + i, self.capacity as int));
            }
            assert(self@ =~= rest);
        }
        to_read
    }

    /// Samples queued: what a read can get.
    #[inline]
    pub fn available(&self) -> (r: usize)
        requires
            self.wf(),
        ensures
            r == self@.len(),
            r == self.spec_available(),
    {
        self.write_pos.wrapping_sub(self.read_pos) as usize
    }

    /// Free slots: what a write can take.
    #[inline]
    pub fn free_space(&self) -> (r: usize)
        requires
            self.wf(),
        ensures
            r == self.spec_capacity() - self@.len(),
    {
        self.capacity - (self.write_pos.wrapping_sub(self.read_pos) as usize)
    }

    /// The capacity fixed at construction.
    #[inline]
    pub fn capacity(&self) -> (r: usize)
        ensures
            r == self.spec_capacity(),
    {
        self.capacity
    }

    /// Whether the buffer is filled to at least `numer / denom` of its
    /// capacity.
    pub fn is_filled_to(&self, numer: u32, denom: u32) -> (r: bool)
        requires
            self.wf(),
        ensures
            r == (self@.len() * denom >= numer * self.spec_capacity()),
    {
        let queued: u128 = self.available() as u128;
        let cap: u128 = self.capacity as u128;
        assert(queued * (denom as u128) <= 0xffff_ffff_ffff_ffff * 0xffff_ffff && (numer as u128)
            * cap <= 0xffff_ffff_ffff_ffff * 0xffff_ffff) by (nonlinear_arith)
            requires
                0 <= queued <= 0xffff_ffff_ffff_ffff,
                0 <= cap <= 0xffff_ffff_ffff_ffff,
                0 <= denom <= 0xffff_ffff,
                0 <= numer <= 0xffff_ffff,
        ;
        queued * (denom as u128) >= (numer as u128) * cap
    }

    /// Drops everything queued. To be called only while neither side is
    /// reading or writing.
    pub fn clear(&mut self)
        requires
            old(self).wf(),
        ensures
            final(self).wf(),
            final(self)@ == Seq::<T>::empty(),
            final(self).spec_capacity() == old(self).spec_capacity(),
            final(self).spec_memory_locked() == old(self).spec_memory_locked(),
    {
        self.read_pos = self.write_pos;
        assert(self@ =~= Seq::<T>::empty());
    }
}

/// One call on a ring buffer, as far as the queue is concerned.
pub enum RingOp<T> {
    /// A write that offers these samples.
    Write(Seq<T>),
    /// A read into room for this many samples.
    Read(nat),
}

/// What a run of calls has done so far.
pub struct RingTrace<T> {
    /// Every sample that a write accepted, in order.
    pub accepted: Seq<T>,
    /// Every sample that a read delivered, in order.
    pub delivered: Seq<T>,
    /// The queue after the last call.
    pub queue: Seq<T>,
}

/// The trace of the calls `ops`, made in that order on an empty buffer of
/// `capacity` slots: each write and read does what the contracts of
/// `RingBuffer::write` and `RingBuffer::read` say.
pub open spec fn replay<T>(capacity: int, ops: Seq<RingOp<T>>) -> RingTrace<T>
    decreases ops.len(),
{
    if ops.len() == 0 {
        RingTrace { accepted: Seq::empty(), delivered: Seq::empty(), queue: Seq::empty() }
    } else {
        let before = replay(capacity, ops.drop_last());
        match ops.last() {
            RingOp::Write(data) => {
                let n = accepted_len(before.queue.len() as int, capacity, data.len() as int);
                RingTrace {
                    accepted: before.accepted + data.take(n),
                    delivered: before.delivered,
                    queue: queue_after_write(before.queue, capacity, data),
                }
            },
            RingOp::Read(wanted) => {
                let n = delivered_len(before.queue.len() as int, wanted as int);
                RingTrace {
                    accepted: before.accepted,
                    delivered: before.delivered + before.queue.take(n),
                    queue: before.queue.skip(n),
                }
            },
        }
    }
}

/// Whatever writes and reads are made, in whatever order, the samples come
/// out in the order in which they went in, none lost, none repeated and
/// none invented: what was delivered, followed by what is still queued, is
/// exactly what was accepted, and the queue never exceeds the capacity.
pub proof fn lemma_ring_is_fifo<T>(capacity: int, ops: Seq<RingOp<T>>)
    requires
        capacity >= 0,
    ensures
        ({
            let t = replay(capacity, ops);
            &&& t.delivered + t.queue == t.accepted
            &&& t.queue.len() <= capacity
            &&& t.delivered.is_prefix_of(t.accepted)
        }),
    decreases ops.len(),
{
    let t = replay(capacity, ops);
    if ops.len() == 0 {
        assert(t.delivered + t.queue =~= t.accepted);
    } else {
        lemma_ring_is_fifo(capacity, ops.drop_last());
        let before = replay(capacity, ops.drop_last());
        assert(before.delivered + before.queue == before.accepted);
        match ops.last() {
            RingOp::Write(data) => {
                let n = accepted_len(before.queue.len() as int, capacity, data.len() as int);
                assert(t.delivered + t.queue =~= (before.delivered + before.queue) + data.take(n));
            },
            RingOp::Read(wanted) => {
                let n = delivered_len(before.queue.len() as int, wanted as int);
                assert(t.delivered + t.queue =~= before.delivered + before.queue);
            },
        }
        assert(t.delivered + t.queue == t.accepted);
    }
    assert(t.delivered =~= t.accepted.take(t.delivered.len() as int));
}

} // verus!
