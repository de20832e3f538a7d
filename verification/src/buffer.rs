//! Bounded byte staging buffer with independent read and write cursors.
//!
//! The buffer decouples byte-at-a-time transport fills from whole-command
//! parsing: the transport appends at the write cursor, the parser looks at
//! the unread region without consuming it, and consuming is an explicit,
//! separate step so an incomplete parse can be retried once more bytes have
//! arrived. Space freed by consuming is reclaimed by shifting the unread
//! bytes to the front of the store (compaction) when an append needs it.

use vstd::prelude::*;

verus! {

/// Fixed-capacity byte store with `read_pos <= write_pos <= capacity`.
/// The unread region is `store[read_pos .. write_pos]`.
pub struct Buffer {
    store: Vec<u8>,
    rpos: usize,
    wpos: usize,
}

/// How many bytes an append of `data` to a buffer with the given unread
/// `contents` accepts: as many as fit in the reclaimable space.
pub open spec fn write_count(contents: Seq<u8>, capacity: nat, data: Seq<u8>) -> int {
    if data.len() <= capacity - contents.len() {
        data.len() as int
    } else {
        capacity - contents.len()
    }
}

/// The unread contents after appending `data`: the old contents followed by
/// the accepted prefix of `data`.
pub open spec fn written(contents: Seq<u8>, capacity: nat, data: Seq<u8>) -> Seq<u8> {
    contents + data.take(write_count(contents, capacity, data))
}

/// What a read of up to `n` bytes yields: the first `n` unread bytes, or all
/// of them if fewer are available.
pub open spec fn read_view(contents: Seq<u8>, n: int) -> Seq<u8> {
    if n <= contents.len() {
        contents.take(n)
    } else {
        contents
    }
}

/// The unread contents after consuming `n` bytes (capped at what is unread).
pub open spec fn consumed(contents: Seq<u8>, n: int) -> Seq<u8> {
    if n <= contents.len() {
        contents.skip(n)
    } else {
        Seq::empty()
    }
}

impl Buffer {
    /// Cursor ordering that every operation preserves.
    pub closed spec fn wf(&self) -> bool {
        self.rpos <= self.wpos <= self.store@.len()
    }

    /// The fixed size of the backing store.
    pub closed spec fn capacity(&self) -> nat {
        self.store@.len()
    }

    /// The unread bytes, oldest first.
    pub closed spec fn contents(&self) -> Seq<u8> {
        self.store@.subrange(self.rpos as int, self.wpos as int)
    }

    /// Contiguous room at the tail, before any compaction.
    pub closed spec fn tail_room(&self) -> nat {
        (self.store@.len() - self.wpos) as nat
    }

    /// Makes an empty buffer over a zeroed store of `capacity` bytes. The
    /// store never grows or shrinks afterwards: the fixed bound is the point
    /// of the design.
    pub fn new(capacity: usize) -> (r: Buffer)
        ensures
            r.wf(),
            r.capacity() == capacity,
            r.contents() == Seq::<u8>::empty(),
    {
        let mut store: Vec<u8> = Vec::new();
        while store.len() < capacity
            invariant
                store@.len() <= capacity,
            decreases capacity - store@.len(),
        {
            store.push(0);
        }
        let r = Buffer { store, rpos: 0, wpos: 0 };
        proof {
            assert(r.contents() =~= Seq::<u8>::empty());
        }
        r
    }

    /// The capacity of the backing store.
    pub fn len(&self) -> (r: usize)
        ensures
            r == self.capacity(),
    {
        self.store.len()
    }

    /// How many unread bytes are buffered.
    pub fn available_read(&self) -> (r: usize)
        requires
            self.wf(),
        ensures
            r == self.contents().len(),
    {
        self.wpos - self.rpos
    }

    /// How much space an append may use in all: the free tail plus the
    /// already-consumed prefix that compaction can reclaim.
    pub fn available_write(&self) -> (r: usize)
        requires
            self.wf(),
        ensures
            r == self.capacity() - self.contents().len(),
    {
        (self.store.len() - self.wpos) + self.rpos
    }

    /// The contiguous space at the tail, usable without compaction.
    pub fn available_write_without_discard(&self) -> (r: usize)
        requires
            self.wf(),
        ensures
            r == self.tail_room(),
    {
        self.store.len() - self.wpos
    }

    /// Discards all buffered bytes: the protocol's resynchronization
    /// primitive after a decode error.
    pub fn clear(&mut self)
        ensures
            final(self).wf(),
            final(self).capacity() == old(self).capacity(),
            final(self).contents() == Seq::<u8>::empty(),
            final(self).tail_room() == final(self).capacity(),
    {
        self.rpos = 0;
        self.wpos = 0;
        proof {
            assert(self.contents() =~= Seq::<u8>::empty());
        }
    }

    /// Advances the read cursor by `amt`, capped at the unread count. When
    /// the cursor reaches the end of the store, both cursors recycle to the
    /// front.
    pub fn consume(&mut self, amt: usize)
        requires
            old(self).wf(),
        ensures
            final(self).wf(),
            final(self).capacity() == old(self).capacity(),
            final(self).contents() == consumed(old(self).contents(), amt as int),
    {
        let avail = self.wpos - self.rpos;
        let count = if amt < avail {
            amt
        } else {
            avail
        };
        self.rpos = self.rpos + count;
        if self.rpos >= self.store.len() {
            // wf gives rpos <= wpos <= capacity, so here rpos == wpos ==
            // capacity and the recycled cursors are both zero.
            self.rpos = 0;
            self.wpos = 0;
        }
        proof {
            assert(self.contents() =~= consumed(old(self).contents(), amt as int));
        }
    }

    /// Copies out up to `max_count` unread bytes without consuming them, so
    /// a failed or incomplete parse can be retried after the next fill.
    pub fn read(&self, max_count: usize) -> (r: Vec<u8>)
        requires
            self.wf(),
        ensures
            r@ == read_view(self.contents(), max_count as int),
    {
        let avail = self.wpos - self.rpos;
        let count = if max_count < avail {
            max_count
        } else {
            avail
        };
        let mut out: Vec<u8> = Vec::new();
        let mut i: usize = 0;
        while i < count
            invariant
                self.wf(),
                count <= self.contents().len(),
                i <= count,
                out@ == self.contents().take(count as int).take(i as int),
            decreases count - i,
        {
            out.push(self.store[self.rpos + i]);
            proof {
                assert(self.contents().take(count as int).take(i + 1 as int)
                    =~= self.contents().take(count as int).take(i as int).push(
                    self.store@[self.rpos + i as int],
                ));
            }
            i = i + 1;
        }
        proof {
            assert(self.contents().take(count as int).take(count as int)
                =~= read_view(self.contents(), max_count as int));
        }
        out
    }

    /// Shifts the unread bytes to the front of the store and rebases both
    /// cursors, reclaiming the consumed prefix.
    fn discard_already_read_data(&mut self)
        requires
            old(self).wf(),
        ensures
            final(self).wf(),
            final(self).capacity() == old(self).capacity(),
            final(self).contents() == old(self).contents(),
            final(self).tail_room() == final(self).capacity() - final(self).contents().len(),
    {
        let count = self.wpos - self.rpos;
        let mut i: usize = 0;
        while i < count
            invariant
                i <= count,
                count == old(self).wpos - old(self).rpos,
                self.rpos == old(self).rpos,
                self.wpos == old(self).wpos,
                self.wf(),
                self.store@.len() == old(self).store@.len(),
                forall|j: int| i <= j < count ==> self.store@[#[trigger] (self.rpos + j)] == old(
                    self,
                ).store@[self.rpos + j],
                forall|j: int| 0 <= j < i ==> #[trigger] self.store@[j] == old(self).store@[
                    self.rpos + j],
            decreases count - i,
        {
            let b = self.store[self.rpos + i];
            self.store.set(i, b);
            i = i + 1;
        }
        self.wpos = count;
        self.rpos = 0;
        proof {
            assert(self.contents() =~= old(self).contents());
        }
    }

    /// Appends as many bytes of `data` as fit, compacting first when the
    /// tail alone is too short. Returns how many bytes were accepted: the
    /// whole of `data` whenever the total free space allows it, and the
    /// prefix that deterministically fits otherwise.
    pub fn write(&mut self, data: &[u8]) -> (r: usize)
        requires
            old(self).wf(),
        ensures
            final(self).wf(),
            final(self).capacity() == old(self).capacity(),
            r == write_count(old(self).contents(), old(self).capacity(), data@),
            final(self).contents() == written(old(self).contents(), old(self).capacity(), data@),
    {
        let avail = (self.store.len() - self.wpos) + self.rpos;
        let n = if data.len() < avail {
            data.len()
        } else {
            avail
        };
        if n > self.store.len() - self.wpos {
            self.discard_already_read_data();
        }
        let cap = self.store.len();
        let mut i: usize = 0;
        while i < n
            invariant
                i <= n,
                self.wf(),
                n <= data@.len(),
                cap == self.store@.len(),
                self.wpos + n <= cap,
                self.store@.len() == old(self).capacity(),
                self.store@.subrange(self.rpos as int, self.wpos as int) == old(self).contents(),
                self.store@.subrange(self.wpos as int, self.wpos + i) == data@.take(i as int),
            decreases n - i,
        {
            let b = data[i];
            self.store.set(self.wpos + i, b);
            proof {
                assert(self.store@.subrange(self.rpos as int, self.wpos as int) =~= old(
                    self,
                ).contents());
                assert(self.store@.subrange(self.wpos as int, self.wpos + i + 1) =~= data@.take(
                    i + 1 as int,
                ));
            }
            i = i + 1;
        }
        let saved_wpos = self.wpos;
        self.wpos = self.wpos + n;
        proof {
            assert(self.contents() =~= self.store@.subrange(self.rpos as int, saved_wpos as int)
                + self.store@.subrange(saved_wpos as int, saved_wpos + n));
            assert(self.contents() =~= written(
                old(self).contents(),
                old(self).capacity(),
                data@,
            ));
        }
        n
    }

    /// Appends the whole of `data`, or nothing: when even compaction cannot
    /// make room for all of it, the buffer is left unchanged and zero is
    /// reported so the caller can retry later.
    pub fn write_all(&mut self, data: &[u8]) -> (r: usize)
        requires
            old(self).wf(),
        ensures
            final(self).wf(),
            final(self).capacity() == old(self).capacity(),
            r == if data@.len() + old(self).contents().len() <= old(self).capacity() {
                data@.len() as int
            } else {
                0
            },
            final(self).contents() == old(self).contents() + data@.take(r as int),
    {
        let avail = (self.store.len() - self.wpos) + self.rpos;
        if data.len() > avail {
            proof {
                assert(self.contents() =~= old(self).contents() + data@.take(0));
            }
            0
        } else {
            self.write(data)
        }
    }
}

/// Law: a byte sequence that fits the capacity, written into a buffer with
/// nothing unread, is read back exactly.
pub proof fn lemma_write_then_read_round_trip(capacity: nat, d: Seq<u8>)
    requires
        d.len() <= capacity,
    ensures
        read_view(written(Seq::empty(), capacity, d), d.len() as int) == d,
{
    assert(read_view(written(Seq::empty(), capacity, d), d.len() as int) =~= d);
}

/// Law: after filling the buffer to capacity and consuming `k` bytes, an
/// append of at most `k` bytes is accepted in full — compaction reclaims
/// exactly the consumed space, so the reported count is never zero.
pub proof fn lemma_compaction_reclaims_consumed_space(
    capacity: nat,
    full: Seq<u8>,
    k: int,
    m: Seq<u8>,
)
    requires
        full.len() == capacity,
        0 <= k <= capacity,
        1 <= m.len() <= k,
    ensures
        write_count(consumed(full, k), capacity, m) == m.len(),
        write_count(consumed(full, k), capacity, m) > 0,
{
}

} // verus!
