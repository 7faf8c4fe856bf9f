use vstd::prelude::*;

verus! {

/// The last `n` elements of `s` (all of `s` when it is not longer than `n`).
pub open spec fn keep_last<T>(s: Seq<T>, n: nat) -> Seq<T> {
    if s.len() <= n {
        s
    } else {
        s.subrange(s.len() - n, s.len() as int)
    }
}

/// Fixed-capacity ring buffer of `N` slots.
///
/// Pushing into a full buffer overwrites the oldest element.  Logically the
/// buffer is the sequence of its elements from oldest to newest (`self@`),
/// which is always the last `N` of all values ever pushed (`pushed()`).
pub struct RingBuffer<T: Copy, const N: usize> {
    buf: [Option<T>; N],
    /// Next write position and number of stored elements, updated together.
    cursor: (usize, usize),
    /// Every value pushed so far, oldest first.
    history: Ghost<Seq<T>>,
}

impl<T: Copy, const N: usize> RingBuffer<T, N> {
    spec fn head(&self) -> usize {
        self.cursor.0
    }

    spec fn count(&self) -> usize {
        self.cursor.1
    }

    /// Physical slot of the oldest element.
    spec fn oldest(&self) -> int {
        if self.count() < N {
            0
        } else {
            self.head() as int
        }
    }

    /// Physical slot of logical position `i` (0 = oldest).
    spec fn slot(&self, i: int) -> int {
        if self.oldest() + i < N {
            self.oldest() + i
        } else {
            self.oldest() + i - N
        }
    }

    /// Internal consistency of the slots, the write position and the length.
    pub closed spec fn wf(&self) -> bool {
        &&& self.buf@.len() == N
        &&& self.count() <= N
        &&& N > 0 ==> self.head() < N
        &&& self.count() < N ==> self.head() == self.count()
        &&& forall|i: int| 0 <= i < self.count() ==> (#[trigger] self.buf@[self.slot(i)]) is Some
        &&& self.contents() == keep_last(self.history@, N as nat)
    }

    /// The stored elements, oldest first.
    spec fn contents(&self) -> Seq<T> {
        Seq::new(self.count() as nat, |i: int| self.buf@[self.slot(i)]->0)
    }

    /// Every value pushed into this buffer since it was created, oldest first.
    pub closed spec fn pushed(&self) -> Seq<T> {
        self.history@
    }

    /// An empty buffer.
    pub fn new() -> (r: Self)
        ensures
            r.wf(),
            r@ == Seq::<T>::empty(),
            r.pushed() == Seq::<T>::empty(),
    {
        let r = RingBuffer { buf: [None; N], cursor: (0, 0), history: Ghost(Seq::empty()) };
        assert(r.contents() =~= Seq::<T>::empty());
        r
    }

    /// Pushes `value`; when the buffer is full the oldest element is dropped.
    pub fn push(&mut self, value: T)
        requires
            old(self).wf(),
            N > 0,
        ensures
            final(self).wf(),
            final(self)@ == keep_last(old(self)@.push(value), N as nat),
            final(self)@.len() <= N,
            final(self)@.last() == value,
            final(self).pushed() == old(self).pushed().push(value),
    {
        let ghost pre = self@;
        let ghost pre_self = *self;
        let (h, n): (usize, usize) = self.cursor;
        self.buf[h] = Some(value);
        let new_head: usize = if h + 1 == N { 0 } else { h + 1 };
        let new_len: usize = if n < N { n + 1 } else { n };
        self.history = Ghost(self.history@.push(value));
        proof {
            let post = RingBuffer::<T, N> { buf: self.buf, cursor: (new_head, new_len), history: self.history };
            assert forall|i: int| 0 <= i < new_len implies (#[trigger] post.buf@[post.slot(i)]) is Some by {
                if pre_self.count() < N {
                    assert(post.slot(i) == i);
                    if i < pre_self.count() {
                        assert(pre_self.slot(i) == i);
                        assert(pre_self.buf@[pre_self.slot(i)] is Some);
                    }
                } else {
                    if i < N - 1 {
                        assert(post.slot(i) == pre_self.slot(i + 1));
                        assert(pre_self.buf@[pre_self.slot(i + 1)] is Some);
                    }
                }
            }
        }
        self.cursor = (new_head, new_len);
        let ghost expect = keep_last(pre.push(value), N as nat);
        proof {
            if pre_self.count() < N {
                assert forall|i: int| 0 <= i < self.count() implies self@[i] == expect[i] by {
                    assert(self.slot(i) == i);
                    if i < pre_self.count() {
                        assert(pre_self.slot(i) == i);
                    }
                }
            } else {
                assert forall|i: int| 0 <= i < self.count() implies self@[i] == expect[i] by {
                    if i < N - 1 {
                        assert(self.slot(i) == pre_self.slot(i + 1));
                        assert(self.slot(i) != h);
                    } else {
                        assert(self.slot(i) == h);
                    }
                }
            }
        }
        assert(self.contents() =~= expect);
        proof {
            lemma_keep_last_push(pre_self.history@, value, N as nat);
        }
    }

    /// Number of stored elements.
    pub fn len(&self) -> (r: usize)
        requires
            self.wf(),
        ensures
            r == self@.len(),
            r <= N,
    {
        self.cursor.1
    }

    /// True when nothing has been pushed yet.
    pub fn is_empty(&self) -> (r: bool)
        requires
            self.wf(),
        ensures
            r == (self@.len() == 0),
    {
        self.cursor.1 == 0
    }

    /// True when the buffer holds exactly `N` elements.
    pub fn is_full(&self) -> (r: bool)
        requires
            self.wf(),
        ensures
            r == (self@.len() == N),
    {
        self.cursor.1 == N
    }

    /// The most recently pushed element, if any.
    pub fn latest(&self) -> (r: Option<T>)
        requires
            self.wf(),
        ensures
            r == (if self@.len() == 0 { None } else { Some(self@.last()) }),
    {
        let (head, len): (usize, usize) = self.cursor;
        if len == 0 {
            return None;
        }
        let idx: usize = if head == 0 { N - 1 } else { head - 1 };
        assert(self.slot(len - 1) == idx);
        assert(self.buf@[self.slot(len - 1)] is Some);
        self.buf[idx]
    }

    /// Element at logical position `i` (0 = oldest, `len - 1` = newest).
    pub fn get(&self, i: usize) -> (r: Option<T>)
        requires
            self.wf(),
        ensures
            r == (if i < self@.len() { Some(self@[i as int]) } else { None }),
            r == (if i < self@.len() {
                Some(self.pushed()[self.pushed().len() - self@.len() + i])
            } else {
                None
            }),
    {
        let (head, len): (usize, usize) = self.cursor;
        if i >= len {
            return None;
        }
        let oldest: usize = if len < N { 0 } else { head };
        let phys: usize = if i < N - oldest { oldest + i } else { i - (N - oldest) };
        assert(phys == self.slot(i as int));
        assert(self.buf@[self.slot(i as int)] is Some);
        self.buf[phys]
    }

    /// All stored elements, oldest first.
    pub fn iter(&self) -> (r: Vec<T>)
        requires
            self.wf(),
        ensures
            r@ == self@,
    {
        let len: usize = self.cursor.1;
        let mut out: Vec<T> = Vec::new();
        let mut i: usize = 0;
        while i < len
            invariant
                self.wf(),
                len == self@.len(),
                i <= len,
                out@ == self@.subrange(0, i as int),
            decreases len - i,
        {
            let item = self.get(i);
            out.push(item.unwrap());
            assert(out@ =~= self@.subrange(0, i + 1));
            i = i + 1;
        }
        assert(self@.subrange(0, len as int) =~= self@);
        out
    }
}

impl<T: Copy, const N: usize> View for RingBuffer<T, N> {
    type V = Seq<T>;

    /// The stored elements, oldest first.
    closed spec fn view(&self) -> Seq<T> {
        self.contents()
    }
}

/// Pushing into a buffer that already keeps the last `n` elements of `s`
/// gives the last `n` elements of `s` extended by the pushed value.
pub proof fn lemma_keep_last_push<T>(s: Seq<T>, v: T, n: nat)
    requires
        n > 0,
    ensures
        keep_last(keep_last(s, n).push(v), n) == keep_last(s.push(v), n),
{
    let k = keep_last(s, n);
    let lhs = keep_last(k.push(v), n);
    let rhs = keep_last(s.push(v), n);
    if s.len() < n {
        assert(k == s);
    } else {
        assert(k.len() == n);
        assert(lhs.len() == n);
        assert(rhs.len() == n);
        assert forall|i: int| 0 <= i < n implies lhs[i] == rhs[i] by {
            if i < n - 1 {
                assert(lhs[i] == k[i + 1]);
            }
        }
        assert(lhs =~= rhs);
    }
}

/// Law of the ring buffer: a buffer of capacity `N` into which the values
/// `pushed()` were pushed, in order, since it was created holds exactly the
/// last `min(k, N)` of them (`k` = number of pushes), oldest first.
pub proof fn lemma_contents_are_last_pushed<T: Copy, const N: usize>(rb: RingBuffer<T, N>)
    requires
        rb.wf(),
    ensures
        rb@ == keep_last(rb.pushed(), N as nat),
        rb@.len() == (if rb.pushed().len() <= N { rb.pushed().len() } else { N as nat }),
        forall|i: int|
            0 <= i < rb@.len() ==> #[trigger] rb@[i] == rb.pushed()[rb.pushed().len() - rb@.len()
                + i],
{
}

} // verus!
