//! A fixed-capacity ring buffer, the receive buffer of every socket.

use super::Error;
use vstd::prelude::*;

verus! {

/// `a` reduced into `0..n`, for `0 <= a < 2 * n`.
pub open spec fn wrap(a: int, n: int) -> int {
    if a < n {
        a
    } else {
        a - n
    }
}

proof fn lemma_wrap(a: int, n: int)
    requires
        0 < n,
        0 <= a < 2 * n,
    ensures
        a % n == wrap(a, n),
        0 <= wrap(a, n) < n,
{
    if a < n {
        vstd::arithmetic::div_mod::lemma_small_mod(a as nat, n as nat);
    } else {
        vstd::arithmetic::div_mod::lemma_small_mod((a - n) as nat, n as nat);
        vstd::arithmetic::div_mod::lemma_mod_add_multiples_vanish(a - n, n);
    }
}

/// A ring buffer.
///
/// This ring buffer implementation provides many ways to interact with it:
///
///   * Enqueueing or dequeueing one element from corresponding side of the buffer;
///   * Enqueueing or dequeueing a slice of elements from corresponding side of the buffer;
///   * Accessing allocated and unallocated areas directly.
///
/// This implementation is suitable for both simple uses such as a FIFO queue
/// of UDP packets, and advanced ones such as a TCP reassembly buffer.
pub struct RingBuffer<T, const N: usize> {
    storage: Vec<T>,
    read_at: usize,
    length: usize,
}

impl<T, const N: usize> RingBuffer<T, N> {
    /// The backing storage, allocated or not.
    pub closed spec fn storage_view(&self) -> Seq<T> {
        self.storage@
    }

    /// The storage index of the first allocated element.
    pub closed spec fn head(&self) -> int {
        self.read_at as int
    }

    /// The number of allocated elements.
    pub closed spec fn count(&self) -> int {
        self.length as int
    }

    /// The storage holds `N` elements (and `N` leaves room to add two
    /// storage indices), at most `N` of them are allocated and
    /// the head lies inside the storage (or at 0 for an empty storage).
    pub open spec fn wf(&self) -> bool {
        &&& self.storage_view().len() == N
        &&& N <= usize::MAX / 2
        &&& 0 <= self.count() <= N
        &&& if N == 0 {
            self.head() == 0
        } else {
            0 <= self.head() < N
        }
    }

    /// The storage index of the element `i` places past the head.
    pub open spec fn slot(&self, i: int) -> int {
        wrap(self.head() + i, N as int)
    }

    /// The allocated elements, oldest first.
    pub open spec fn items(&self) -> Seq<T> {
        Seq::new(self.count() as nat, |i: int| self.storage_view()[self.slot(i)])
    }

    /// The number of free slots.
    pub open spec fn free(&self) -> int {
        N - self.count()
    }

    /// The storage index right after the last allocated element.
    pub open spec fn tail(&self) -> int {
        if N == 0 {
            0
        } else {
            self.slot(self.count())
        }
    }

    /// The number of free slots from the tail up to the end of the storage.
    pub open spec fn spec_contiguous_window(&self) -> int {
        if self.free() <= N - self.tail() {
            self.free()
        } else {
            N - self.tail()
        }
    }
}

impl<T, const N: usize> RingBuffer<T, N> {
    /// Where the next enqueued elements go: the tail, or the start of the
    /// storage when the buffer is empty (an empty buffer is rewound first).
    pub open spec fn enqueue_start(&self) -> int {
        if self.count() == 0 {
            0
        } else {
            self.tail()
        }
    }

    /// The number of free slots from `enqueue_start` up to the end of the storage.
    pub open spec fn enqueue_window(&self) -> int {
        if self.free() <= N - self.enqueue_start() {
            self.free()
        } else {
            N - self.enqueue_start()
        }
    }

    /// The free slots, from the one right after the newest element on.
    pub open spec fn unallocated(&self) -> Seq<T> {
        Seq::new(self.free() as nat, |k: int| self.storage_view()[wrap(self.head() + self.count() + k, N as int)])
    }

    /// The number of allocated elements from the head up to the end of the storage.
    pub open spec fn dequeue_window(&self) -> int {
        if self.count() <= N - self.head() {
            self.count()
        } else {
            N - self.head()
        }
    }
}

impl<T, const N: usize> View for RingBuffer<T, N> {
    type V = Seq<T>;

    open spec fn view(&self) -> Seq<T> {
        self.items()
    }
}

impl<T: Default + Clone, const N: usize> RingBuffer<T, N> {
    /// Create a ring buffer with the given storage.
    ///
    /// During creation, every element in `storage` is reset: each holds what
    /// `T::default()` gives.
    pub fn new() -> (r: RingBuffer<T, N>)
        requires
            N <= usize::MAX / 2,
        ensures
            r.wf(),
            r@ == Seq::<T>::empty(),
            r.head() == 0,
            r.storage_view().len() == N,
            forall|i: int| 0 <= i < N ==> call_ensures(T::default, (), #[trigger] r.storage_view()[i]),
    {
        let mut storage: Vec<T> = Vec::new();
        while storage.len() < N
            invariant
                storage@.len() <= N,
                forall|i: int| 0 <= i < storage@.len() ==> call_ensures(T::default, (), #[trigger] storage@[i]),
            decreases N - storage@.len(),
        {
            storage.push(T::default());
        }
        RingBuffer { storage, read_at: 0, length: 0 }
    }
}

impl<T, const N: usize> RingBuffer<T, N> {
    /// Clear the ring buffer.
    pub fn clear(&mut self)
        requires
            old(self).wf(),
        ensures
            final(self).wf(),
            final(self)@ == Seq::<T>::empty(),
            final(self).head() == 0,
            final(self).storage_view() == old(self).storage_view(),
    {
        self.read_at = 0;
        self.length = 0;
    }

    /// Return the maximum number of elements in the ring buffer.
    pub fn capacity(&self) -> (r: usize)
        requires
            self.wf(),
        ensures
            r == N,
    {
        self.storage.len()
    }

    /// Return the current number of elements in the ring buffer.
    pub fn len(&self) -> (r: usize)
        requires
            self.wf(),
        ensures
            r == self@.len(),
    {
        self.length
    }

    /// Return the number of elements that can be added to the ring buffer.
    pub fn window(&self) -> (r: usize)
        requires
            self.wf(),
        ensures
            r == N - self@.len(),
    {
        self.capacity() - self.len()
    }

    /// Return the largest number of elements that can be added to the buffer
    /// without wrapping around (i.e. in a single `enqueue_many` call).
    pub fn contiguous_window(&self) -> (r: usize)
        requires
            self.wf(),
        ensures
            r == self.spec_contiguous_window(),
    {
        let w = self.window();
        let c = self.capacity() - self.get_idx(self.len());
        if w <= c {
            w
        } else {
            c
        }
    }

    /// Query whether the buffer is empty.
    pub fn is_empty(&self) -> (r: bool)
        requires
            self.wf(),
        ensures
            r == (self@.len() == 0),
    {
        self.len() == 0
    }

    /// Query whether the buffer is full.
    pub fn is_full(&self) -> (r: bool)
        requires
            self.wf(),
        ensures
            r == (self@.len() == N),
    {
        self.window() == 0
    }

    /// Shorthand for `(self.read + idx) % self.capacity()` with an
    /// additional check to ensure that the capacity is not zero.
    fn get_idx(&self, idx: usize) -> (r: usize)
        requires
            self.wf(),
            idx <= N,
        ensures
            r == (if N == 0 { 0 } else { self.slot(idx as int) }),
            N > 0 ==> r < N,
    {
        let capacity = self.capacity();
        if capacity > 0 {
            proof {
                lemma_wrap(self.read_at + idx, N as int);
            }
            (self.read_at + idx) % capacity
        } else {
            0
        }
    }

    /// Shorthand for `(self.read + idx) % self.capacity()` with no
    /// additional checks to ensure the capacity is not zero.
    fn get_idx_unchecked(&self, idx: usize) -> (r: usize)
        requires
            self.wf(),
            N > 0,
            idx <= N,
        ensures
            r == self.slot(idx as int),
            r < N,
    {
        proof {
            lemma_wrap(self.read_at + idx, N as int);
        }
        (self.read_at + idx) % self.capacity()
    }
}

/// This is the "discrete" ring buffer interface: it operates with single elements,
/// and boundary conditions (empty/full) are errors.
impl<T, const N: usize> RingBuffer<T, N> {
    /// Enqueue a single element into the buffer, and return a reference to it,
    /// or return `Err(Error::Exhausted)` if the buffer is full.
    pub fn enqueue_one(&mut self) -> (r: Result<&mut T, Error>)
        requires
            old(self).wf(),
        ensures
            final(self).wf(),
            old(self)@.len() == N ==> r is Err && r->Err_0 == Error::Exhausted && *final(self) == *old(self),
            old(self)@.len() < N ==> r is Ok
                && *r->Ok_0 == old(self).storage_view()[old(self).tail()]
                && final(self).head() == old(self).head()
                && final(self).count() == old(self).count() + 1
                && final(self).storage_view() == old(self).storage_view().update(old(self).tail(), *final(r->Ok_0))
                && final(self)@ == old(self)@.push(*final(r->Ok_0)),
    {
        if self.is_full() {
            return Err(Error::Exhausted);
        }
        let index = self.get_idx_unchecked(self.length);
        self.length = self.length + 1;
        let r = &mut self.storage[index];
        Ok(r)
    }

    /// Dequeue an element from the buffer, and return a reference to it,
    /// or return `Err(Error::Exhausted)` if the buffer is empty.
    pub fn dequeue_one(&mut self) -> (r: Result<&mut T, Error>)
        requires
            old(self).wf(),
        ensures
            final(self).wf(),
            old(self)@.len() == 0 ==> r is Err && r->Err_0 == Error::Exhausted && *final(self) == *old(self),
            old(self)@.len() > 0 ==> r is Ok
                && *r->Ok_0 == old(self)@[0]
                && final(self).head() == old(self).slot(1)
                && final(self).count() == old(self).count() - 1
                && final(self).storage_view() == old(self).storage_view().update(old(self).head(), *final(r->Ok_0))
                && final(self)@ == old(self)@.drop_first(),
    {
        if self.is_empty() {
            return Err(Error::Exhausted);
        }
        let next_at = self.get_idx_unchecked(1);
        let index = self.read_at;
        self.length = self.length - 1;
        self.read_at = next_at;
        let r = &mut self.storage[index];
        Ok(r)
    }
}

/// This is the "continuous" ring buffer interface: it operates with element slices,
/// and boundary conditions (empty/full) simply result in empty slices.
impl<T, const N: usize> RingBuffer<T, N> {
    /// Enqueue a slice of elements up to the given size into the buffer,
    /// and return a reference to them.
    ///
    /// This function may return a slice smaller than the given size
    /// if the free space in the buffer is not contiguous.
    ///
    /// What is written into the returned slice becomes the newest elements.
    /// (The buffer stays well formed as long as the slice keeps its length,
    /// which a borrow of a slice always does; vstd's specification of mutable slices
    /// does not state it, so the clause carries it as a premise.)
    pub fn enqueue_many(&mut self, size: usize) -> (r: &mut [T])
        requires
            old(self).wf(),
        ensures
            final(r)@.len() == r@.len() ==> final(self).wf() && final(self)@ == old(self)@ + final(r)@,
            r@.len() == (if size <= old(self).enqueue_window() { size as int } else { old(self).enqueue_window() }),
            r@ == old(self).storage_view().subrange(
                old(self).enqueue_start(),
                old(self).enqueue_start() + r@.len(),
            ),
            final(self).head() == (if old(self).count() == 0 { 0 } else { old(self).head() }),
            final(self).count() == old(self).count() + r@.len(),
            final(self).storage_view() == old(self).storage_view().subrange(0, old(self).enqueue_start())
                + final(r)@ + old(self).storage_view().subrange(
                old(self).enqueue_start() + r@.len(),
                N as int,
            ),
    {
        if self.length == 0 {
            // Ring is currently empty. Reset `read_at` to optimize
            // for contiguous space.
            self.read_at = 0;
        }
        let write_at = self.get_idx(self.length);
        let max_size = self.contiguous_window();
        let n = if size <= max_size {
            size
        } else {
            max_size
        };
        self.length = self.length + n;
        let whole = self.storage.as_mut_slice();
        let (_before, rest) = whole.split_at_mut(write_at);
        let (chunk, _after) = rest.split_at_mut(n);
        chunk
    }
}

impl<T, const N: usize> RingBuffer<T, N> {
    /// Dequeue a slice of elements up to the given size from the buffer,
    /// and return a reference to them.
    ///
    /// This function may return a slice smaller than the given size
    /// if the allocated space in the buffer is not contiguous.
    ///
    /// (As for `enqueue_many`, the buffer stays well formed as long as the
    /// slice keeps its length.)
    pub fn dequeue_many(&mut self, size: usize) -> (r: &mut [T])
        requires
            old(self).wf(),
        ensures
            r@.len() == (if size <= old(self).dequeue_window() { size as int } else { old(self).dequeue_window() }),
            r@ == old(self)@.subrange(0, r@.len() as int),
            r@ == old(self).storage_view().subrange(old(self).head(), old(self).head() + r@.len()),
            final(self).count() == old(self).count() - r@.len(),
            final(self).head() == (if N == 0 { 0 } else { wrap(old(self).head() + r@.len(), N as int) }),
            final(self).storage_view() == old(self).storage_view().subrange(0, old(self).head())
                + final(r)@ + old(self).storage_view().subrange(old(self).head() + r@.len(), N as int),
            final(r)@.len() == r@.len() ==> final(self).wf() && final(self)@ == old(self)@.subrange(
                r@.len() as int,
                old(self)@.len() as int,
            ),
    {
        let capacity = self.capacity();
        let until_end = capacity - self.read_at;
        let max_size = if self.length <= until_end {
            self.length
        } else {
            until_end
        };
        let n = if size <= max_size {
            size
        } else {
            max_size
        };
        let start = self.read_at;
        if capacity > 0 {
            proof {
                lemma_wrap(self.read_at + n, N as int);
            }
            self.read_at = (self.read_at + n) % capacity;
        } else {
            self.read_at = 0;
        }
        self.length = self.length - n;
        let whole = self.storage.as_mut_slice();
        let (_before, rest) = whole.split_at_mut(start);
        let (chunk, _after) = rest.split_at_mut(n);
        chunk
    }

    /// Writes `data[from..]`, as far as the free space up to the end of the
    /// storage allows, behind the newest element, and enqueues it.
    fn enqueue_chunk(&mut self, data: &[T], from: usize) -> (n: usize)
        where
            T: Copy,
        requires
            old(self).wf(),
            from <= data@.len(),
        ensures
            final(self).wf(),
            n == (if data@.len() - from <= old(self).enqueue_window() {
                data@.len() - from
            } else {
                old(self).enqueue_window()
            }),
            final(self)@ == old(self)@ + data@.subrange(from as int, from + n),
            final(self).head() == (if old(self).count() == 0 { 0 } else { old(self).head() }),
            old(self).enqueue_start() + n <= N,
            forall|j: int|
                0 <= j < N && !(old(self).enqueue_start() <= j < old(self).enqueue_start() + n) ==> (#[trigger] final(self).storage_view()[j]) == old(self).storage_view()[j],
    {
        if self.length == 0 {
            self.read_at = 0;
        }
        let write_at = self.get_idx(self.length);
        let max_size = self.contiguous_window();
        let n = if data.len() - from <= max_size {
            data.len() - from
        } else {
            max_size
        };
        let ghost before = self.storage@;
        let ghost items = self@;
        let mut k: usize = 0;
        while k < n
            invariant
                self.wf(),
                self.length == old(self).length,
                self.read_at == (if old(self).count() == 0 { 0 } else { old(self).head() }),
                items == old(self)@,
                self@ == items,
                0 <= k <= n,
                n == max_size || n == data@.len() - from,
                n <= max_size,
                n <= data@.len() - from,
                from + n <= data.len(),
                before.len() == N,
                max_size == self.spec_contiguous_window(),
                write_at == self.tail(),
                self.storage@.len() == N,
                forall|j: int| 0 <= j < N && !(write_at <= j < write_at + k) ==> self.storage@[j] == before[j],
                forall|j: int| write_at <= j < write_at + k ==> self.storage@[j] == data@[from + j - write_at],
            decreases n - k,
        {
            self.storage.set(write_at + k, data[from + k]);
            k = k + 1;
        }
        self.length = self.length + n;
        assert(self@ =~= items + data@.subrange(from as int, from + n));
        n
    }

    /// Reads the oldest elements, as far as they lie contiguously up to the end
    /// of the storage, into `data[from..]`, and dequeues them.
    fn dequeue_chunk(&mut self, data: &mut [T], from: usize) -> (n: usize)
        where
            T: Copy,
        requires
            old(self).wf(),
            from <= old(data)@.len(),
        ensures
            final(self).wf(),
            n == (if old(data)@.len() - from <= old(self).dequeue_window() {
                old(data)@.len() - from
            } else {
                old(self).dequeue_window()
            }),
            final(data)@ == old(data)@.subrange(0, from as int) + old(self)@.subrange(0, n as int)
                + old(data)@.subrange(from + n, old(data)@.len() as int),
            final(self)@ == old(self)@.subrange(n as int, old(self)@.len() as int),
            final(self).storage_view() == old(self).storage_view(),
            final(self).head() == (if N == 0 { 0 } else { wrap(old(self).head() + n, N as int) }),
    {
        let capacity = self.capacity();
        let until_end = capacity - self.read_at;
        let max_size = if self.length <= until_end {
            self.length
        } else {
            until_end
        };
        let n = if data.len() - from <= max_size {
            data.len() - from
        } else {
            max_size
        };
        let start = self.read_at;
        let ghost orig = data@;
        let mut k: usize = 0;
        while k < n
            invariant
                *self == *old(self),
                self.wf(),
                start == self.head(),
                0 <= k <= n,
                n <= self.dequeue_window(),
                from + n <= orig.len(),
                orig == old(data)@,
                data@.len() == orig.len(),
                data.len() == orig.len(),
                forall|j: int| 0 <= j < orig.len() && !(from <= j < from + k) ==> data@[j] == orig[j],
                forall|j: int| from <= j < from + k ==> data@[j] == self.storage@[start + j - from],
            decreases n - k,
        {
            data[from + k] = self.storage[start + k];
            k = k + 1;
        }
        if capacity > 0 {
            proof {
                lemma_wrap(self.read_at + n, N as int);
            }
            self.read_at = (self.read_at + n) % capacity;
        } else {
            self.read_at = 0;
        }
        self.length = self.length - n;
        assert(data@ =~= orig.subrange(0, from as int) + old(self)@.subrange(0, n as int)
            + orig.subrange(from + n, orig.len() as int));
        assert(self@ =~= old(self)@.subrange(n as int, old(self)@.len() as int));
        n
    }

    /// Enqueue as many elements from the given slice into the buffer as possible,
    /// and return the amount of elements that could fit.
    pub fn enqueue_slice(&mut self, data: &[T]) -> (r: usize)
        where
            T: Copy,
        requires
            old(self).wf(),
        ensures
            final(self).wf(),
            r == (if data@.len() <= old(self).free() { data@.len() as int } else { old(self).free() }),
            final(self)@ == old(self)@ + data@.subrange(0, r as int),
            final(self).head() == (if old(self).count() == 0 { 0 } else { old(self).head() }),
            old(self).count() > 0 ==> final(self).unallocated() == old(self).unallocated().subrange(
                r as int,
                old(self).free(),
            ),
            old(self).count() == 0 ==> final(self).unallocated() == old(self).storage_view().subrange(
                r as int,
                N as int,
            ),
    {
        let ghost s0 = *self;
        let size_1 = self.enqueue_chunk(data, 0);
        let ghost s1 = *self;
        let size_2 = self.enqueue_chunk(data, size_1);
        assert(data@.subrange(0, size_1 + size_2) =~= data@.subrange(0, size_1 as int) + data@.subrange(
            size_1 as int,
            size_1 + size_2,
        ));
        proof {
            let r = size_1 + size_2;
            let c = s0.count();
            let h2 = if c == 0 { 0 } else { s0.head() };
            let a = h2 + c;
            let st1 = s0.enqueue_start();
            let st2 = s1.enqueue_start();
            assert(s0@.len() == c);
            assert(s1@.len() == s1.count());
            assert(self@.len() == self.count());
            assert(s1.head() == h2);
            assert(s1.count() == c + size_1);
            assert(self.head() == h2);
            assert(self.count() == c + r);
            assert(size_1 + size_2 <= s0.free());
            assert(N > 0 ==> 0 <= h2 < N);
            assert(N > 0 ==> st1 == wrap(a, N as int));
            assert(N > 0 && s1.count() > 0 ==> st2 == wrap(a + size_1, N as int));
            assert(s1.count() == 0 ==> size_2 == 0);
            let fin = self.unallocated();
            assert forall|k: int| 0 <= k < fin.len() implies #[trigger] fin[k] == s0.storage_view()[wrap(
                a + r + k,
                N as int,
            )] by {
                let p = wrap(a + r + k, N as int);
                assert(fin[k] == self.storage_view()[p]);
                assert(0 <= p < N);
                assert(!(st2 <= p < st2 + size_2));
                assert(self.storage_view()[p] == s1.storage_view()[p]);
                assert(!(st1 <= p < st1 + size_1));
                assert(s1.storage_view()[p] == s0.storage_view()[p]);
            }
            if c > 0 {
                assert(fin =~= s0.unallocated().subrange(r as int, s0.free()));
            } else {
                assert(fin =~= s0.storage_view().subrange(r as int, N as int));
            }
        }
        size_1 + size_2
    }

    /// Dequeue as many elements from the buffer into the given slice as possible,
    /// and return the amount of elements that could fit.
    pub fn dequeue_slice(&mut self, data: &mut [T]) -> (r: usize)
        where
            T: Copy,
        requires
            old(self).wf(),
        ensures
            final(self).wf(),
            r == (if old(data)@.len() <= old(self).count() { old(data)@.len() as int } else { old(self).count() }),
            final(data)@ == old(self)@.subrange(0, r as int) + old(data)@.subrange(r as int, old(data)@.len() as int),
            final(self)@ == old(self)@.subrange(r as int, old(self)@.len() as int),
            final(self).storage_view() == old(self).storage_view(),
            final(self).head() == (if N == 0 { 0 } else { old(self).slot(r as int) }),
    {
        let size_1 = self.dequeue_chunk(data, 0);
        let size_2 = self.dequeue_chunk(data, size_1);
        size_1 + size_2
    }
}

/// This is the "random access" ring buffer interface: it operates with element slices,
/// and allows to access elements of the buffer that are not adjacent to its head or tail.
impl<T, const N: usize> RingBuffer<T, N> {
    /// The length of the slice that `get_allocated(offset, size)` returns.
    pub open spec fn allocated_run(&self, offset: int, size: int) -> int {
        if offset > self.count() {
            0
        } else {
            let start = if N == 0 { 0 } else { self.slot(offset) };
            let m = if size <= self.count() - offset { size } else { self.count() - offset };
            if m <= N - start { m } else { N - start }
        }
    }

    /// The length of the slice that `get_unallocated(offset, size)` returns.
    pub open spec fn unallocated_run(&self, offset: int, size: int) -> int {
        if offset > self.free() {
            0
        } else {
            let start = if N == 0 { 0 } else { wrap(self.head() + self.count() + offset, N as int) };
            let m = if size <= self.free() - offset { size } else { self.free() - offset };
            if m <= N - start { m } else { N - start }
        }
    }

    /// Return the largest contiguous slice of allocated buffer elements starting
    /// at the given offset past the first allocated element, and up to the given size.
    pub fn get_allocated(&self, offset: usize, size: usize) -> (r: &[T])
        requires
            self.wf(),
        ensures
            r@.len() == self.allocated_run(offset as int, size as int),
            offset <= self@.len() ==> r@ == self@.subrange(offset as int, offset + r@.len()),
    {
        // We can't read past the end of the allocated data.
        if offset > self.length {
            let whole = self.storage.as_slice();
            return vstd::slice::slice_subrange(whole, 0, 0);
        }
        let start_at = self.get_idx(offset);
        let mut size = size;
        // We can't read more than we have allocated.
        let clamped_length = self.length - offset;
        if size > clamped_length {
            size = clamped_length
        }
        // We can't contiguously dequeue past the end of the storage.
        let until_end = self.capacity() - start_at;
        if size > until_end {
            size = until_end
        }
        let whole = self.storage.as_slice();
        let r = vstd::slice::slice_subrange(whole, start_at, start_at + size);
        assert(r@ =~= self@.subrange(offset as int, offset + size));
        r
    }

    /// Read as many elements from allocated buffer elements into the given slice
    /// starting at the given offset past the first allocated element, and return
    /// the amount read.
    pub fn read_allocated(&mut self, offset: usize, data: &mut [T]) -> (r: usize)
        where
            T: Copy,
        requires
            old(self).wf(),
        ensures
            *final(self) == *old(self),
            r == (if offset > old(self).count() {
                0
            } else if old(data)@.len() <= old(self).count() - offset {
                old(data)@.len() as int
            } else {
                old(self).count() - offset
            }),
            offset > old(self)@.len() ==> final(data)@ == old(data)@,
            offset <= old(self)@.len() ==> final(data)@ == old(self)@.subrange(offset as int, offset + r)
                + old(data)@.subrange(r as int, old(data)@.len() as int),
    {
        let size_1 = self.copy_allocated(offset, data, 0);
        if size_1 == 0 {
            return 0;
        }
        let size_2 = self.copy_allocated(offset + size_1, data, size_1);
        size_1 + size_2
    }

    /// Copies `get_allocated(offset, data.len() - from)` into `data[from..]`.
    fn copy_allocated(&self, offset: usize, data: &mut [T], from: usize) -> (n: usize)
        where
            T: Copy,
        requires
            self.wf(),
            from <= old(data)@.len(),
        ensures
            n == self.allocated_run(offset as int, old(data)@.len() - from),
            offset > self@.len() ==> final(data)@ == old(data)@,
            offset <= self@.len() ==> final(data)@ == old(data)@.subrange(0, from as int) + self@.subrange(offset as int, offset + n)
                + old(data)@.subrange(from + n, old(data)@.len() as int),
    {
        let slice = self.get_allocated(offset, data.len() - from);
        let n = slice.len();
        let ghost orig = data@;
        let mut k: usize = 0;
        while k < n
            invariant
                0 <= k <= n,
                n == slice@.len(),
                from + n <= orig.len(),
                data@.len() == orig.len(),
                data.len() == orig.len(),
                forall|j: int| 0 <= j < orig.len() && !(from <= j < from + k) ==> data@[j] == orig[j],
                forall|j: int| from <= j < from + k ==> data@[j] == slice@[j - from],
            decreases n - k,
        {
            data[from + k] = slice[k];
            k = k + 1;
        }
        assert(data@ =~= orig.subrange(0, from as int) + slice@ + orig.subrange(from + n, orig.len() as int));
        n
    }

    /// Dequeue the given number of allocated buffer elements.
    ///
    /// # Panics
    /// Panics if the number of elements given exceeds the number of allocated elements.
    pub fn dequeue_allocated(&mut self, count: usize)
        requires
            old(self).wf(),
            count <= old(self)@.len(),
        ensures
            final(self).wf(),
            final(self)@ == old(self)@.subrange(count as int, old(self)@.len() as int),
            final(self).storage_view() == old(self).storage_view(),
    {
        let next = self.get_idx(count);
        self.length = self.length - count;
        self.read_at = next;
        assert(self@ =~= old(self)@.subrange(count as int, old(self)@.len() as int));
    }

    /// Return the largest contiguous slice of unallocated buffer elements starting
    /// at the given offset past the last allocated element, and up to the given size.
    ///
    /// (As for `enqueue_many`, the buffer stays well formed as long as the
    /// slice keeps its length.)
    #[verifier::rlimit(60)]
    pub fn get_unallocated(&mut self, offset: usize, size: usize) -> (r: &mut [T])
        requires
            old(self).wf(),
        ensures
            r@.len() == old(self).unallocated_run(offset as int, size as int),
            offset <= old(self).free() ==> r@ == old(self).unallocated().subrange(
                offset as int,
                offset + r@.len(),
            ),
            final(self).head() == old(self).head(),
            final(self).count() == old(self).count(),
            final(r)@.len() == r@.len() ==> final(self).wf() && final(self)@ == old(self)@,
            final(r)@.len() == r@.len() && offset > old(self).free() ==> final(self).unallocated()
                == old(self).unallocated(),
            final(r)@.len() == r@.len() && offset <= old(self).free() ==> final(self).unallocated()
                == old(self).unallocated().subrange(0, offset as int) + final(r)@
                + old(self).unallocated().subrange(offset + r@.len(), old(self).free()),
    {
        // We can't access past the end of unallocated data.
        if offset > self.window() {
            let whole = self.storage.as_mut_slice();
            let (empty, _rest) = whole.split_at_mut(0);
            return empty;
        }
        let start_at = self.get_idx(self.length + offset);
        let mut size = size;
        // We can't enqueue more than there is free space.
        let clamped_window = self.window() - offset;
        if size > clamped_window {
            size = clamped_window
        }
        // We can't contiguously enqueue past the end of the storage.
        let until_end = self.capacity() - start_at;
        if size > until_end {
            size = until_end
        }
        let whole = self.storage.as_mut_slice();
        let (_before, rest) = whole.split_at_mut(start_at);
        let (chunk, _after) = rest.split_at_mut(size);
        assert(chunk@ =~= old(self).unallocated().subrange(offset as int, offset + size));
        chunk
    }

    /// Writes `data[from..]` into the free slots starting `offset` past the
    /// newest element, as far as they lie contiguously.
    fn write_unallocated_chunk(&mut self, offset: usize, data: &[T], from: usize) -> (n: usize)
        where
            T: Copy,
        requires
            old(self).wf(),
            from <= data@.len(),
        ensures
            final(self).wf(),
            n == old(self).unallocated_run(offset as int, data@.len() - from),
            final(self)@ == old(self)@,
            final(self).head() == old(self).head(),
            final(self).count() == old(self).count(),
            offset > old(self).free() ==> *final(self) == *old(self),
            offset <= old(self).free() ==> final(self).unallocated() == old(self).unallocated().subrange(
                0,
                offset as int,
            ) + data@.subrange(from as int, from + n) + old(self).unallocated().subrange(
                offset + n,
                old(self).free(),
            ),
    {
        if offset > self.window() {
            return 0;
        }
        let start_at = self.get_idx(self.length + offset);
        let mut size = data.len() - from;
        let clamped_window = self.window() - offset;
        if size > clamped_window {
            size = clamped_window
        }
        let until_end = self.capacity() - start_at;
        if size > until_end {
            size = until_end
        }
        let ghost before = self.storage@;
        let mut k: usize = 0;
        while k < size
            invariant
                self.wf(),
                self.head() == old(self).head(),
                self.count() == old(self).count(),
                0 <= k <= size,
                from + size <= data.len(),
                start_at + size <= N,
                before.len() == N,
                before == old(self).storage_view(),
                forall|j: int| 0 <= j < N && !(start_at <= j < start_at + k) ==> self.storage@[j] == before[j],
                forall|j: int| start_at <= j < start_at + k ==> self.storage@[j] == data@[from + j - start_at],
            decreases size - k,
        {
            self.storage.set(start_at + k, data[from + k]);
            k = k + 1;
        }
        assert(self@ =~= old(self)@);
        assert(self.unallocated() =~= old(self).unallocated().subrange(0, offset as int) + data@.subrange(
            from as int,
            from + size,
        ) + old(self).unallocated().subrange(offset + size, old(self).free()));
        size
    }

    /// Write as many elements from the given slice into unallocated buffer elements
    /// starting at the given offset past the last allocated element, and return
    /// the amount written.
    pub fn write_unallocated(&mut self, offset: usize, data: &[T]) -> (r: usize)
        where
            T: Copy,
        requires
            old(self).wf(),
        ensures
            final(self).wf(),
            final(self)@ == old(self)@,
            r == (if offset > old(self).free() {
                0
            } else if data@.len() <= old(self).free() - offset {
                data@.len() as int
            } else {
                old(self).free() - offset
            }),
            offset > old(self).free() ==> final(self).unallocated() == old(self).unallocated(),
            offset <= old(self).free() ==> final(self).unallocated() == old(self).unallocated().subrange(
                0,
                offset as int,
            ) + data@.subrange(0, r as int) + old(self).unallocated().subrange(offset + r, old(self).free()),
            final(self).head() == old(self).head(),
            final(self).count() == old(self).count(),
    {
        let size_1 = self.write_unallocated_chunk(offset, data, 0);
        if size_1 == 0 {
            return 0;
        }
        let size_2 = self.write_unallocated_chunk(offset + size_1, data, size_1);
        size_1 + size_2
    }

    /// Enqueue the given number of unallocated buffer elements.
    ///
    /// # Panics
    /// Panics if the number of elements given exceeds the number of unallocated elements.
    pub fn enqueue_unallocated(&mut self, count: usize)
        requires
            old(self).wf(),
            count <= N - old(self)@.len(),
        ensures
            final(self).wf(),
            final(self)@ == old(self)@ + old(self).unallocated().subrange(0, count as int),
            final(self).storage_view() == old(self).storage_view(),
    {
        self.length = self.length + count;
        assert(self@ =~= old(self)@ + old(self).unallocated().subrange(0, count as int));
    }
}

impl<T, const N: usize> RingBuffer<T, N> {
    /// Call `f` with the allocated elements, oldest first: the part up to
    /// the end of the storage, and, when they wrap around, the rest from the
    /// start of the storage; then dequeue the number of elements that `f`
    /// returns first.
    ///
    /// # Panics
    /// This function panics if the amount of elements returned by `f` is larger
    /// than the number of elements passed into it.
    pub fn dequeue_many_with_wrapping<R, F>(&mut self, f: F) -> (r: (usize, R))
        where
            F: FnOnce(&[T], Option<&[T]>) -> (usize, R),
        requires
            old(self).wf(),
            forall|a: &[T], b: Option<&[T]>| #[trigger] f.requires((a, b)),
            forall|a: &[T], b: Option<&[T]>, out: (usize, R)| #[trigger] f.ensures((a, b), out) ==> out.0
                <= a@.len() + (match b {
                Some(b) => b@.len() as int,
                None => 0int,
            }),
        ensures
            final(self).wf(),
            exists|a: &[T], b: Option<&[T]>|
                {
                    &&& a@ == old(self)@.subrange(0, old(self).dequeue_window())
                    &&& (match b {
                        Some(b) => old(self).dequeue_window() < old(self)@.len() && b@ == old(self)@.subrange(
                            old(self).dequeue_window(),
                            old(self)@.len() as int,
                        ),
                        None => old(self).dequeue_window() == old(self)@.len(),
                    })
                    &&& #[trigger] f.ensures((a, b), r)
                },
            final(self)@ == old(self)@.subrange(r.0 as int, old(self)@.len() as int),
            final(self).storage_view() == old(self).storage_view(),
            final(self).head() == (if N == 0 { 0 } else { old(self).slot(r.0 as int) }),
    {
        let capacity = self.capacity();
        let until_end = capacity - self.read_at;
        let size1 = if self.length <= until_end {
            self.length
        } else {
            until_end
        };
        let size2 = self.length - size1;
        let whole = self.storage.as_slice();
        let first = vstd::slice::slice_subrange(whole, self.read_at, self.read_at + size1);
        assert(first@ =~= self@.subrange(0, size1 as int));
        let (size, result) = if size2 != 0 {
            let second = vstd::slice::slice_subrange(whole, 0, size2);
            assert(second@ =~= self@.subrange(size1 as int, self@.len() as int));
            f(first, Some(second))
        } else {
            f(first, None)
        };
        if capacity > 0 {
            proof {
                lemma_wrap(self.read_at + size, N as int);
            }
            self.read_at = (self.read_at + size) % capacity;
        } else {
            self.read_at = 0;
        }
        self.length = self.length - size;
        assert(self@ =~= old(self)@.subrange(size as int, old(self)@.len() as int));
        (size, result)
    }
}

impl<T: Default + Clone + Copy, const N: usize> RingBuffer<T, N> {
    /// Create a ring buffer whose storage starts with the elements of `slice`,
    /// and holds no element.
    pub fn from_slice(slice: &[T]) -> (r: RingBuffer<T, N>)
        requires
            N <= usize::MAX / 2,
        ensures
            r.wf(),
            r@ == Seq::<T>::empty(),
            r.head() == 0,
            slice@.len() <= N ==> r.storage_view().subrange(0, slice@.len() as int) == slice@,
            slice@.len() > N ==> r.storage_view() == slice@.subrange(0, N as int),
    {
        let mut rb = RingBuffer::new();
        let n = rb.enqueue_slice(slice);
        proof {
            assert forall|i: int| 0 <= i < n implies rb.storage_view()[i] == slice@[i] by {
                assert(rb@[i] == slice@[i]);
            }
        }
        rb.clear();
        assert(slice@.len() <= N ==> rb.storage_view().subrange(0, slice@.len() as int) =~= slice@);
        assert(slice@.len() > N ==> rb.storage_view() =~= slice@.subrange(0, N as int));
        rb
    }
}

impl<T, const N: usize> RingBuffer<T, N> {
    /// The whole backing storage, allocated or not, in storage order.
    pub fn storage(&self) -> (r: &[T])
        ensures
            r@ == self.storage_view(),
    {
        self.storage.as_slice()
    }

    /// The index in the storage of the first element in the buffer.
    pub fn read_at(&self) -> (r: usize)
        ensures
            r == self.head(),
    {
        self.read_at
    }
}

impl<T, const N: usize> RingBuffer<T, N> {
    /// Call `f` with a single buffer element, and enqueue the element if `f`
    /// returns successfully, or return `Err(Error::Exhausted)` if the buffer is full.
    pub fn enqueue_one_with<R, F>(&mut self, f: F) -> (r: Result<R, Error>)
        where
            F: FnOnce(&mut T) -> Result<R, Error>,
        requires
            old(self).wf(),
            forall|x: &mut T| #[trigger] f.requires((x,)),
        ensures
            final(self).wf(),
            old(self)@.len() == N ==> r == Err::<R, Error>(Error::Exhausted) && *final(self) == *old(self),
            old(self)@.len() < N ==> exists|x: &mut T|
                {
                    &&& *x == old(self).storage_view()[old(self).tail()]
                    &&& #[trigger] f.ensures((x,), r)
                    &&& final(self).storage_view() == old(self).storage_view().update(old(self).tail(), *final(x))
                },
            old(self)@.len() < N && r is Ok ==> final(self).count() == old(self).count() + 1
                && final(self).head() == old(self).head(),
            old(self)@.len() < N && r is Err ==> final(self).count() == old(self).count() && final(self).head()
                == old(self).head(),
    {
        if self.is_full() {
            return Err(Error::Exhausted);
        }
        let index = self.get_idx_unchecked(self.length);
        match f(&mut self.storage[index]) {
            Ok(result) => {
                self.length = self.length + 1;
                Ok(result)
            },
            Err(error) => Err(error),
        }
    }

    /// Call `f` with a single buffer element, and dequeue the element if `f`
    /// returns successfully, or return `Err(Error::Exhausted)` if the buffer is empty.
    pub fn dequeue_one_with<R, F>(&mut self, f: F) -> (r: Result<R, Error>)
        where
            F: FnOnce(&mut T) -> Result<R, Error>,
        requires
            old(self).wf(),
            forall|x: &mut T| #[trigger] f.requires((x,)),
        ensures
            final(self).wf(),
            old(self)@.len() == 0 ==> r == Err::<R, Error>(Error::Exhausted) && *final(self) == *old(self),
            old(self)@.len() > 0 ==> exists|x: &mut T|
                {
                    &&& *x == old(self)@[0]
                    &&& #[trigger] f.ensures((x,), r)
                    &&& final(self).storage_view() == old(self).storage_view().update(old(self).head(), *final(x))
                },
            old(self)@.len() > 0 && r is Ok ==> final(self).count() == old(self).count() - 1 && final(self).head()
                == old(self).slot(1),
            old(self)@.len() > 0 && r is Err ==> final(self).count() == old(self).count() && final(self).head()
                == old(self).head(),
    {
        if self.is_empty() {
            return Err(Error::Exhausted);
        }
        let next_at = self.get_idx_unchecked(1);
        let idx = self.read_at;
        match f(&mut self.storage[idx]) {
            Ok(result) => {
                self.length = self.length - 1;
                self.read_at = next_at;
                Ok(result)
            },
            Err(error) => Err(error),
        }
    }
}

impl<T, const N: usize> RingBuffer<T, N> {
    /// Call `f` with the largest contiguous slice of unallocated buffer elements,
    /// and enqueue the amount of elements returned by `f`.
    ///
    /// # Panics
    /// This function panics if the amount of elements returned by `f` is larger
    /// than the size of the slice passed into it.
    pub fn enqueue_many_with<R, F>(&mut self, f: F) -> (r: (usize, R))
        where
            F: FnOnce(&mut [T]) -> (usize, R),
        requires
            old(self).wf(),
            forall|x: &mut [T]| #[trigger] f.requires((x,)),
            forall|x: &mut [T], out: (usize, R)| #[trigger] f.ensures((x,), out) ==> out.0 <= x@.len(),
        ensures
            r.0 <= old(self).enqueue_window(),
            final(self).head() == (if old(self).count() == 0 { 0 } else { old(self).head() }),
            final(self).count() == old(self).count() + r.0,
            exists|x: &mut [T]|
                {
                    &&& x@ == old(self).storage_view().subrange(
                        old(self).enqueue_start(),
                        old(self).enqueue_start() + old(self).enqueue_window(),
                    )
                    &&& #[trigger] f.ensures((x,), r)
                    &&& final(self).storage_view() == old(self).storage_view().subrange(
                        0,
                        old(self).enqueue_start(),
                    ) + final(x)@ + old(self).storage_view().subrange(
                        old(self).enqueue_start() + old(self).enqueue_window(),
                        N as int,
                    )
                    &&& final(x)@.len() == x@.len() ==> final(self).wf() && final(self)@ == old(self)@
                        + final(x)@.subrange(0, r.0 as int)
                },
    {
        if self.length == 0 {
            // Ring is currently empty. Reset `read_at` to optimize
            // for contiguous space.
            self.read_at = 0;
        }
        let write_at = self.get_idx(self.length);
        let max_size = self.contiguous_window();
        let whole = self.storage.as_mut_slice();
        let (_before, rest) = whole.split_at_mut(write_at);
        let (chunk, _after) = rest.split_at_mut(max_size);
        let (size, result) = f(chunk);
        self.length = self.length + size;
        (size, result)
    }

    /// Call `f` with the largest contiguous slice of allocated buffer elements,
    /// and dequeue the amount of elements returned by `f`.
    ///
    /// # Panics
    /// This function panics if the amount of elements returned by `f` is larger
    /// than the size of the slice passed into it.
    pub fn dequeue_many_with<R, F>(&mut self, f: F) -> (r: (usize, R))
        where
            F: FnOnce(&mut [T]) -> (usize, R),
        requires
            old(self).wf(),
            forall|x: &mut [T]| #[trigger] f.requires((x,)),
            forall|x: &mut [T], out: (usize, R)| #[trigger] f.ensures((x,), out) ==> out.0 <= x@.len(),
        ensures
            r.0 <= old(self).dequeue_window(),
            final(self).count() == old(self).count() - r.0,
            final(self).head() == (if N == 0 { 0 } else { wrap(old(self).head() + r.0, N as int) }),
            exists|x: &mut [T]|
                {
                    &&& x@ == old(self)@.subrange(0, old(self).dequeue_window())
                    &&& #[trigger] f.ensures((x,), r)
                    &&& final(self).storage_view() == old(self).storage_view().subrange(0, old(self).head())
                        + final(x)@ + old(self).storage_view().subrange(
                        old(self).head() + old(self).dequeue_window(),
                        N as int,
                    )
                    &&& final(x)@.len() == x@.len() ==> final(self).wf() && final(self)@ == final(x)@.subrange(
                        r.0 as int,
                        x@.len() as int,
                    ) + old(self)@.subrange(old(self).dequeue_window(), old(self)@.len() as int)
                },
    {
        let capacity = self.capacity();
        let until_end = capacity - self.read_at;
        let max_size = if self.length <= until_end {
            self.length
        } else {
            until_end
        };
        let start = self.read_at;
        let whole = self.storage.as_mut_slice();
        let (_before, rest) = whole.split_at_mut(start);
        let (chunk, _after) = rest.split_at_mut(max_size);
        assert(chunk@ =~= old(self)@.subrange(0, max_size as int));
        let (size, result) = f(chunk);
        if capacity > 0 {
            proof {
                lemma_wrap(start + size, N as int);
            }
            self.read_at = (start + size) % capacity;
        } else {
            self.read_at = 0;
        }
        self.length = self.length - size;
        (size, result)
    }
}

/// An empty ring buffer is rewound before it is filled, so the whole
/// capacity lies open to the next enqueue.
pub proof fn lemma_empty_offers_whole_capacity<T, const N: usize>(rb: RingBuffer<T, N>)
    requires
        rb.wf(),
        rb@.len() == 0,
    ensures
        rb.enqueue_start() == 0,
        rb.enqueue_window() == N,
{
}

/// Elements leave in the order they arrived: after `enqueue_slice` puts
/// `data` into `b0` (as much of it as fits, giving `b1`), a `dequeue_slice`
/// of everything `b1` holds gives the elements of `b0` followed by the
/// enqueued part of `data`, and leaves the buffer empty. All of `data` fits
/// exactly when it is no longer than the free room of `b0`.
pub proof fn lemma_fifo<T, const N: usize>(
    b0: RingBuffer<T, N>,
    data: Seq<T>,
    n: int,
    b1: RingBuffer<T, N>,
    out: Seq<T>,
    b2: RingBuffer<T, N>,
)
    requires
        b0.wf(),
        n == (if data.len() <= b0.free() { data.len() as int } else { b0.free() }),
        b1@ == b0@ + data.subrange(0, n),
        out == b1@.subrange(0, b1@.len() as int),
        b2@ == b1@.subrange(b1@.len() as int, b1@.len() as int),
    ensures
        out == b0@ + data.subrange(0, n),
        b2@.len() == 0,
        n == data.len() <==> data.len() <= N - b0@.len(),
{
    assert(out =~= b1@);
}

} // verus!
