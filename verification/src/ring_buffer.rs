//! A fixed-capacity byte queue, used for terminal input.
//!
//! Bytes are added at the back, taken from the front (`dequeue_byte`) or
//! taken back from the back (`pop_byte`, used for backspace). A full buffer
//! refuses further bytes until some are taken out.
use vstd::prelude::*;

verus! {

/// Number of bytes a ring buffer can hold.
pub const RING_BUFFER_CAPACITY: usize = 1024;

/// The index `x` in a storage of `RING_BUFFER_CAPACITY` slots, for `x` below
/// twice the capacity.
pub open spec fn wrap_index(x: int) -> int {
    if x < RING_BUFFER_CAPACITY as int {
        x
    } else {
        x - RING_BUFFER_CAPACITY as int
    }
}

/// The contents after adding `b` at the back of `s`: `s` itself when it is
/// already full.
pub open spec fn push_bounded(s: Seq<u8>, b: u8) -> Seq<u8> {
    if s.len() < RING_BUFFER_CAPACITY as nat {
        s.push(b)
    } else {
        s
    }
}

/// The contents after adding the bytes of `b`, one at a time in order, at the
/// back of `a`: the bytes that do not fit are dropped.
pub open spec fn append_bounded(a: Seq<u8>, b: Seq<u8>) -> Seq<u8> {
    let total = a.len() + b.len();
    if total <= RING_BUFFER_CAPACITY as nat {
        a + b
    } else {
        (a + b).take(RING_BUFFER_CAPACITY as int)
    }
}

/// Adding `b` after `a` and then the byte `x` is the same as adding the
/// sequence `b` with `x` at its end.
pub proof fn lemma_append_bounded_push(a: Seq<u8>, b: Seq<u8>, x: u8)
    requires
        a.len() <= RING_BUFFER_CAPACITY as nat,
    ensures
        push_bounded(append_bounded(a, b), x) == append_bounded(a, b.push(x)),
{
    assert((a + b).push(x) =~= a + b.push(x));
    if a.len() + b.len() < RING_BUFFER_CAPACITY as nat {
    } else if a.len() + b.len() == RING_BUFFER_CAPACITY as nat {
        assert((a + b.push(x)).take(RING_BUFFER_CAPACITY as int) =~= a + b);
    } else {
        assert((a + b.push(x)).take(RING_BUFFER_CAPACITY as int) =~= (a + b).take(
            RING_BUFFER_CAPACITY as int,
        ));
    }
}

/// A byte queue of at most `RING_BUFFER_CAPACITY` bytes.
pub struct ByteRingBuffer {
    storage: Vec<u8>,
    head: usize,
    len: usize,
}

impl ByteRingBuffer {
    /// The storage has all its slots and the live region fits in it.
    #[verifier::type_invariant]
    pub(crate) closed spec fn wf(&self) -> bool {
        &&& self.storage@.len() == RING_BUFFER_CAPACITY as nat
        &&& self.head < RING_BUFFER_CAPACITY
        &&& self.len <= RING_BUFFER_CAPACITY
    }

    /// The bytes in the buffer, front first.
    pub closed spec fn view(&self) -> Seq<u8> {
        Seq::new(self.len as nat, |i: int| self.storage@[wrap_index(self.head + i)])
    }

    /// A buffer whose invariant holds never holds more than its capacity
    /// (every buffer the exec code handles: `use_type_invariant` gives the
    /// invariant).
    pub(crate) proof fn lemma_len_bounded(&self)
        requires
            self.wf(),
        ensures
            self@.len() <= RING_BUFFER_CAPACITY as nat,
    {
    }

    /// An empty buffer.
    pub fn new() -> (r: Self)
        ensures
            r@ == Seq::<u8>::empty(),
    {
        let mut storage: Vec<u8> = Vec::new();
        let mut i: usize = 0;
        while i < RING_BUFFER_CAPACITY
            invariant
                i <= RING_BUFFER_CAPACITY,
                storage@.len() == i,
            decreases RING_BUFFER_CAPACITY - i,
        {
            storage.push(0u8);
            i = i + 1;
        }
        let r = ByteRingBuffer { storage, head: 0, len: 0 };
        assert(r@ =~= Seq::<u8>::empty());
        r
    }

    /// Whether the buffer holds no byte.
    pub fn is_empty(&self) -> (r: bool)
        ensures
            r == (self@.len() == 0),
    {
        proof {
            use_type_invariant(&*self);
        }
        self.len == 0
    }

    /// Whether the buffer has room for no further byte.
    pub fn is_full(&self) -> (r: bool)
        ensures
            r == (self@.len() == RING_BUFFER_CAPACITY as nat),
    {
        proof {
            use_type_invariant(&*self);
        }
        self.len == RING_BUFFER_CAPACITY
    }

    /// The number of bytes in the buffer.
    pub fn len(&self) -> (r: usize)
        ensures
            r == self@.len(),
    {
        proof {
            use_type_invariant(&*self);
        }
        self.len
    }

    /// Add a byte at the back; a full buffer is left as it was.
    pub fn enqueue_byte(&mut self, byte: u8)
        ensures
            final(self)@ == push_bounded(old(self)@, byte),
    {
        proof {
            use_type_invariant(&*self);
        }
        if self.len < RING_BUFFER_CAPACITY {
            let sum: usize = self.head + self.len;
            let slot: usize = if sum < RING_BUFFER_CAPACITY {
                sum
            } else {
                sum - RING_BUFFER_CAPACITY
            };
            let ghost before = self@;
            self.storage[slot] = byte;
            self.len = self.len + 1;
            proof {
                assert forall|i: int| 0 <= i < before.len() implies #[trigger] self@[i]
                    == before[i] by {
                    assert(wrap_index(self.head + i) != slot);
                }
                assert(self@ =~= before.push(byte));
            }
        }
    }

    /// Take the byte at the front, if any.
    pub fn dequeue_byte(&mut self) -> (r: Option<u8>)
        ensures
            old(self)@.len() == 0 ==> r is None && final(self)@ == old(self)@,
            old(self)@.len() > 0 ==> r == Some(old(self)@[0]) && final(self)@ == old(
                self,
            )@.drop_first(),
    {
        proof {
            use_type_invariant(&*self);
        }
        if self.len == 0 {
            None
        } else {
            let ghost before = self@;
            let byte = self.storage[self.head];
            self.head = if self.head + 1 < RING_BUFFER_CAPACITY {
                self.head + 1
            } else {
                0
            };
            self.len = self.len - 1;
            assert(self@ =~= before.drop_first());
            Some(byte)
        }
    }

    /// Take back the byte at the back, if any.
    pub fn pop_byte(&mut self) -> (r: Option<u8>)
        ensures
            old(self)@.len() == 0 ==> r is None && final(self)@ == old(self)@,
            old(self)@.len() > 0 ==> r == Some(old(self)@.last()) && final(self)@ == old(
                self,
            )@.drop_last(),
    {
        proof {
            use_type_invariant(&*self);
        }
        if self.len == 0 {
            None
        } else {
            let ghost before = self@;
            let sum: usize = self.head + self.len - 1;
            let slot: usize = if sum < RING_BUFFER_CAPACITY {
                sum
            } else {
                sum - RING_BUFFER_CAPACITY
            };
            let byte = self.storage[slot];
            self.len = self.len - 1;
            assert(self@ =~= before.drop_last());
            Some(byte)
        }
    }

    /// Remove every byte.
    pub fn clear(&mut self)
        ensures
            final(self)@ == Seq::<u8>::empty(),
    {
        proof {
            use_type_invariant(&*self);
        }
        self.len = 0;
        assert(self@ =~= Seq::<u8>::empty());
    }
}

/// Taking the front byte of a buffer that had `b` added last to a buffer of
/// room gives back the bytes in the order they were added (first in, first
/// out).
pub proof fn lemma_fifo_order(s: Seq<u8>, b: u8)
    requires
        s.len() < RING_BUFFER_CAPACITY as nat,
    ensures
        push_bounded(s, b).len() == s.len() + 1,
        s.len() > 0 ==> push_bounded(s, b)[0] == s[0] && push_bounded(s, b).drop_first()
            == push_bounded(s.drop_first(), b),
        s.len() == 0 ==> push_bounded(s, b)[0] == b,
{
    if s.len() > 0 {
        assert(s.push(b).drop_first() =~= s.drop_first().push(b));
    }
}

/// Taking back the last byte undoes adding it to a buffer with room.
pub proof fn lemma_pop_undoes_enqueue(s: Seq<u8>, b: u8)
    requires
        s.len() < RING_BUFFER_CAPACITY as nat,
    ensures
        push_bounded(s, b).last() == b,
        push_bounded(s, b).drop_last() == s,
{
    assert(s.push(b).drop_last() =~= s);
}

} // verus!
