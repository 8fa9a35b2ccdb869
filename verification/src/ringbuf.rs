//! A byte ring buffer with split read and write phases.
//!
//! Readers and writers work in two steps: inspect the contiguous regions
//! (`readable`, `writable`) or copy through (`read`, `write`), then commit
//! with `complete_read` / `complete_write`.  Staged bytes become part of
//! the contents only when the write is completed, and read bytes leave
//! the contents only when the read is completed.

use vstd::prelude::*;

verus! {

/// The index `i` wrapped once into `[0, cap)`; meaningful for
/// `0 <= i < 2 * cap`.
pub open spec fn spec_wrap(i: int, cap: int) -> int {
    if i < cap {
        i
    } else {
        i - cap
    }
}

/// The ring buffer: a backing store and a window of live contents from
/// `front` (inclusive) to `back` (exclusive), wrapping at the capacity;
/// `full` disambiguates the `front == back` case.
pub struct RingBuf {
    /// The backing store; its length is the fixed capacity.
    pub buffer: Vec<u8>,
    /// The index of the oldest live byte.
    pub front: usize,
    /// The index one past the newest live byte.
    pub back: usize,
    /// Whether the whole backing store is live.
    pub full: bool,
}

impl RingBuf {
    /// Well-formedness: both indices lie inside the backing store, and
    /// `full` is only set when the indices coincide.
    pub open spec fn wf(&self) -> bool {
        &&& self.buffer.len() == 0 ==> self.front == 0 && self.back == 0 && !self.full
        &&& self.buffer.len() > 0 ==> self.front < self.buffer.len() && self.back
            < self.buffer.len()
        &&& self.full ==> self.front == self.back
    }

    /// The number of live bytes.
    pub open spec fn spec_len(&self) -> int {
        if self.full {
            self.buffer.len() as int
        } else if self.back >= self.front {
            self.back - self.front
        } else {
            self.back + self.buffer.len() - self.front
        }
    }

    /// The live contents, oldest byte first.
    pub open spec fn contents(&self) -> Seq<u8> {
        Seq::new(
            self.spec_len() as nat,
            |p: int| self.buffer@[spec_wrap(self.front + p, self.buffer.len() as int)],
        )
    }

    /// Wraps an empty ring around the given backing store.
    pub fn new(buffer: Vec<u8>) -> (ring: Self)
        ensures
            ring.wf(),
            ring.contents() == Seq::<u8>::empty(),
            ring.buffer@.len() == buffer@.len(),
    {
        let ring = Self { buffer, front: 0, back: 0, full: false };
        proof {
            assert(ring.contents() =~= Seq::<u8>::empty());
        }
        ring
    }

    /// The fixed capacity.
    pub fn capacity(&self) -> (cap: usize)
        ensures
            cap == self.buffer.len(),
    {
        self.buffer.len()
    }

    /// The number of live bytes.
    pub fn len(&self) -> (n: usize)
        requires
            self.wf(),
        ensures
            n == self.spec_len(),
            n == self.contents().len(),
    {
        if self.full {
            self.buffer.len()
        } else if self.back < self.front {
            self.buffer.len() - self.front + self.back
        } else {
            self.back - self.front
        }
    }

    /// How many more bytes fit before the ring is full.
    pub fn available(&self) -> (n: usize)
        requires
            self.wf(),
        ensures
            n == self.buffer.len() - self.spec_len(),
    {
        self.capacity() - self.len()
    }

    /// Whether no byte is live.
    pub fn is_empty(&self) -> (empty: bool)
        requires
            self.wf(),
        ensures
            empty == (self.spec_len() == 0),
    {
        self.front == self.back && !self.full
    }

    /// Whether the whole backing store is live.
    pub fn is_full(&self) -> (full: bool)
        requires
            self.wf(),
        ensures
            full == self.full,
            full == (self.spec_len() == self.buffer.len() && self.buffer.len() > 0),
    {
        self.full
    }

    /// Drops all live bytes.
    pub fn clear(&mut self)
        ensures
            final(self).wf(),
            final(self).contents() == Seq::<u8>::empty(),
            final(self).buffer@ == old(self).buffer@,
    {
        self.front = 0;
        self.back = 0;
        self.full = false;
        proof {
            assert(self.contents() =~= Seq::<u8>::empty());
        }
    }

    /// Copies the subrange `[from, to)` of the backing store.
    fn copy_region(&self, from: usize, to: usize) -> (region: Vec<u8>)
        requires
            from <= to <= self.buffer.len(),
        ensures
            region@ == self.buffer@.subrange(from as int, to as int),
    {
        let mut region: Vec<u8> = Vec::new();
        let mut j: usize = from;
        while j < to
            invariant
                from <= j <= to <= self.buffer.len(),
                region@.len() == j - from,
                forall|k: int| 0 <= k < j - from ==> #[trigger] region@[k] == self.buffer@[from + k],
            decreases to - j,
        {
            let b = self.buffer[j];
            region.push(b);
            j += 1;
        }
        proof {
            assert(region@ =~= self.buffer@.subrange(from as int, to as int));
        }
        region
    }

    /// The two contiguous live regions, oldest first, as copies: the
    /// second is empty unless the contents wrap around the end of the
    /// backing store.  Together they are exactly the live contents.
    pub fn readable(&self) -> (regions: (Vec<u8>, Vec<u8>))
        requires
            self.wf(),
        ensures
            regions.0@ + regions.1@ == self.contents(),
            self.spec_len() == 0 ==> regions.0@.len() == 0 && regions.1@.len() == 0,
            self.spec_len() > 0 && self.front < self.back ==> regions.0@ == self.buffer@.subrange(
                self.front as int,
                self.back as int,
            ) && regions.1@.len() == 0,
            self.spec_len() > 0 && self.front >= self.back ==> regions.0@ == self.buffer@.subrange(
                self.front as int,
                self.buffer.len() as int,
            ) && regions.1@ == self.buffer@.subrange(0, self.back as int),
    {
        if self.is_empty() {
            let regions = (Vec::new(), Vec::new());
            proof {
                assert(regions.0@ + regions.1@ =~= self.contents());
            }
            regions
        } else if self.front < self.back {
            let first = self.copy_region(self.front, self.back);
            let regions = (first, Vec::new());
            proof {
                assert(regions.0@ + regions.1@ =~= self.contents());
            }
            regions
        } else {
            let first = self.copy_region(self.front, self.buffer.len());
            let second = self.copy_region(0, self.back);
            let regions = (first, second);
            proof {
                assert(regions.0@ + regions.1@ =~= self.contents());
            }
            regions
        }
    }

    /// Commits a read: the oldest `len` bytes leave the contents.
    pub fn complete_read(&mut self, len: usize)
        requires
            old(self).wf(),
            len <= old(self).spec_len(),
        ensures
            final(self).wf(),
            final(self).contents() == old(self).contents().skip(len as int),
            final(self).buffer@ == old(self).buffer@,
    {
        if len > 0 {
            let room = self.capacity() - self.front;
            if len >= room {
                self.front = len - room;
            } else {
                self.front = self.front + len;
            }
            self.full = false;
        }
        proof {
            assert(self.contents() =~= old(self).contents().skip(len as int));
        }
    }

    /// Commits a write: the `len` bytes staged right after the live
    /// contents become live.
    pub fn complete_write(&mut self, len: usize)
        requires
            old(self).wf(),
            len <= old(self).buffer.len() - old(self).spec_len(),
        ensures
            final(self).wf(),
            final(self).contents() == old(self).contents() + Seq::new(
                len as nat,
                |j: int|
                    old(self).buffer@[spec_wrap(
                        old(self).back + j,
                        old(self).buffer.len() as int,
                    )],
            ),
            final(self).buffer@ == old(self).buffer@,
    {
        if len > 0 {
            let room = self.capacity() - self.back;
            if len >= room {
                self.back = len - room;
            } else {
                self.back = self.back + len;
            }
            self.full = self.front == self.back;
        }
        proof {
            assert(self.contents() =~= old(self).contents() + Seq::new(
                len as nat,
                |j: int|
                    old(self).buffer@[spec_wrap(
                        old(self).back + j,
                        old(self).buffer.len() as int,
                    )],
            ));
        }
    }

    /// Copies up to `buf.len()` live bytes into the front of `buf`
    /// without committing the read.  Returns how many were copied: the
    /// smaller of the live length and the room in `buf`.
    pub fn read(&mut self, buf: &mut Vec<u8>) -> (n: usize)
        requires
            old(self).wf(),
        ensures
            *final(self) == *old(self),
            final(self).wf(),
            n == if old(self).spec_len() <= old(buf)@.len() {
                old(self).spec_len()
            } else {
                old(buf)@.len() as int
            },
            final(buf)@.len() == old(buf)@.len(),
            forall|j: int| 0 <= j < n ==> final(buf)@[j] == old(self).contents()[j],
            forall|j: int| n <= j < old(buf)@.len() ==> final(buf)@[j] == old(buf)@[j],
    {
        let len = self.len();
        let n = if len <= buf.len() {
            len
        } else {
            buf.len()
        };
        let mut j: usize = 0;
        while j < n
            invariant
                j <= n,
                self == old(self),
                self.wf(),
                n <= self.spec_len(),
                n <= old(buf)@.len(),
                buf@.len() == old(buf)@.len(),
                forall|k: int| 0 <= k < j ==> #[trigger] buf@[k] == self.contents()[k],
                forall|k: int| j <= k < buf@.len() ==> #[trigger] buf@[k] == old(buf)@[k],
            decreases n - j,
        {
            let room = self.buffer.len() - self.front;
            let idx = if j < room {
                self.front + j
            } else {
                j - room
            };
            let b = self.buffer[idx];
            buf[j] = b;
            j += 1;
        }
        n
    }

    /// The lengths of the two contiguous free regions, the one right
    /// after the live contents first.  Together they are the available
    /// room.
    pub fn writable(&self) -> (lens: (usize, usize))
        requires
            self.wf(),
        ensures
            lens.0 + lens.1 == self.buffer.len() - self.spec_len(),
            self.spec_len() == 0 ==> lens.0 == self.buffer.len() - self.back && lens.1
                == self.back,
            self.spec_len() > 0 && self.front < self.back ==> lens.0 == self.buffer.len()
                - self.back && lens.1 == self.front,
            self.spec_len() > 0 && self.front >= self.back ==> lens.0 == self.front - self.back
                && lens.1 == 0,
    {
        if self.is_empty() {
            (self.buffer.len() - self.back, self.back)
        } else if self.front < self.back {
            (self.buffer.len() - self.back, self.front)
        } else {
            (self.front - self.back, 0)
        }
    }

    /// Stages up to `available()` bytes of `data` right after the live
    /// contents without committing the write.  Returns how many were
    /// staged: the smaller of `data.len()` and the available room.  The
    /// live contents are untouched; a following `complete_write` of the
    /// returned count makes the staged bytes live.
    pub fn write(&mut self, data: &[u8]) -> (n: usize)
        requires
            old(self).wf(),
        ensures
            final(self).wf(),
            final(self).front == old(self).front,
            final(self).back == old(self).back,
            final(self).full == old(self).full,
            final(self).buffer@.len() == old(self).buffer@.len(),
            n == if data@.len() <= old(self).buffer.len() - old(self).spec_len() {
                data@.len() as int
            } else {
                old(self).buffer.len() - old(self).spec_len()
            },
            forall|j: int|
                0 <= j < n ==> final(self).buffer@[spec_wrap(
                    old(self).back + j,
                    old(self).buffer.len() as int,
                )] == data@[j],
            final(self).contents() == old(self).contents(),
    {
        let avail = self.available();
        let n = if data.len() <= avail {
            data.len()
        } else {
            avail
        };
        let ghost cap = self.buffer.len() as int;
        let mut j: usize = 0;
        while j < n
            invariant
                j <= n,
                self.wf(),
                cap == self.buffer.len(),
                self.front == old(self).front,
                self.back == old(self).back,
                self.full == old(self).full,
                self.buffer@.len() == old(self).buffer@.len(),
                n <= data@.len(),
                n + self.spec_len() <= self.buffer.len(),
                forall|k: int|
                    0 <= k < j ==> self.buffer@[spec_wrap(self.back + k, cap)] == data@[k],
                forall|i: int|
                    0 <= i < cap && !(exists|k: int|
                        0 <= k < j && i == #[trigger] spec_wrap(self.back + k, cap))
                        ==> #[trigger] self.buffer@[i] == old(self).buffer@[i],
            decreases n - j,
        {
            let room = self.buffer.len() - self.back;
            let idx = if j < room {
                self.back + j
            } else {
                j - room
            };
            let b = data[j];
            self.buffer[idx] = b;
            proof {
                assert(idx == spec_wrap(self.back + j, cap));
                assert forall|k: int|
                    0 <= k < j + 1 implies self.buffer@[spec_wrap(self.back + k, cap)]
                    == data@[k] by {
                    if k < j {
                        assert(spec_wrap(self.back + k, cap) != spec_wrap(self.back + j, cap));
                    }
                }
            }
            j += 1;
        }
        proof {
            assert forall|p: int|
                0 <= p < self.spec_len() implies self.buffer@[#[trigger] spec_wrap(
                self.front + p,
                cap,
            )] == old(self).buffer@[spec_wrap(self.front + p, cap)] by {
                let i = spec_wrap(self.front + p, cap);
                assert forall|k: int| 0 <= k < n implies i != #[trigger] spec_wrap(
                    self.back + k,
                    cap,
                ) by {
                    lemma_live_and_free_disjoint(
                        self.front as int,
                        self.back as int,
                        self.full,
                        cap,
                        self.spec_len(),
                        p,
                        k,
                    );
                }
            }
            assert(self.contents() =~= old(self).contents());
        }
        n
    }
}

/// Inside a well-formed ring, the position of live byte `p` never
/// coincides with the position of staged byte `k`: the live window and
/// the free window are disjoint.
proof fn lemma_live_and_free_disjoint(
    front: int,
    back: int,
    full: bool,
    cap: int,
    len: int,
    p: int,
    k: int,
)
    requires
        0 < cap,
        0 <= front < cap,
        0 <= back < cap,
        full ==> front == back,
        len == if full {
            cap
        } else if back >= front {
            back - front
        } else {
            back + cap - front
        },
        0 <= p < len,
        0 <= k < cap - len,
    ensures
        spec_wrap(front + p, cap) != spec_wrap(back + k, cap),
{
}

} // verus!
