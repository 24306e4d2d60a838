//! Single-byte ring buffer over a fixed-size backing array; it holds up
//! to `BUFFER_SIZE - 1` bytes at a time.
use vstd::prelude::*;

verus! {

pub struct RingBuffer<const BUFFER_SIZE: usize> {
    rp_: usize,  // read pointer
    wp_: usize,  // write pointer
    buffer_: Vec<u8>,
}

impl<const BUFFER_SIZE: usize> View for RingBuffer<BUFFER_SIZE> {
    type V = Seq<u8>;

    /// The queued bytes, oldest first.
    closed spec fn view(&self) -> Seq<u8> {
        if self.wp_ >= self.rp_ {
            self.buffer_@.subrange(self.rp_ as int, self.wp_ as int)
        } else {
            self.buffer_@.subrange(self.rp_ as int, BUFFER_SIZE as int) + self.buffer_@.subrange(
                0,
                self.wp_ as int,
            )
        }
    }
}

impl<const BUFFER_SIZE: usize> RingBuffer<BUFFER_SIZE> {
    #[verifier::type_invariant]
    closed spec fn inv(&self) -> bool {
        BUFFER_SIZE >= 1 && self.rp_ < BUFFER_SIZE && self.wp_ < BUFFER_SIZE
            && self.buffer_@.len() == BUFFER_SIZE as int
    }

    /// A fresh, empty ring.
    pub fn new() -> (r: Self)
        requires
            BUFFER_SIZE >= 1,
        ensures
            r@ == Seq::<u8>::empty(),
    {
        let mut buffer_: Vec<u8> = Vec::new();
        let mut i: usize = 0;
        while i < BUFFER_SIZE
            invariant
                i <= BUFFER_SIZE,
                buffer_@.len() == i as int,
            decreases BUFFER_SIZE - i,
        {
            buffer_.push(0);
            i = i + 1;
        }
        let r = RingBuffer { rp_: 0, wp_: 0, buffer_ };
        proof {
            assert(r@ =~= Seq::<u8>::empty());
        }
        r
    }

    /// Append one byte; a full ring rejects it and keeps its content.
    pub fn enqueue(&mut self, data: u8) -> (r: Result<(), ()>)
        ensures
            old(self)@.len() == BUFFER_SIZE - 1 ==> r is Err && final(self)@ == old(self)@,
            old(self)@.len() < BUFFER_SIZE - 1 ==> r is Ok && final(self)@ == old(self)@.push(
                data,
            ),
    {
        proof {
            use_type_invariant(&*self);
        }
        let count = if self.wp_ >= self.rp_ {
            self.wp_ - self.rp_
        } else {
            BUFFER_SIZE - self.rp_ + self.wp_
        };
        if count == BUFFER_SIZE - 1 {
            return Err(());
        }
        let ghost pre = self@;
        self.buffer_[self.wp_] = data;
        self.inc_wp();
        proof {
            assert(final(self)@ =~= pre.push(data));
        }
        Ok(())
    }

    /// Remove and return the oldest byte, if any.
    pub fn dequeue(&mut self) -> (r: Option<u8>)
        ensures
            old(self)@.len() == 0 ==> r is None && final(self)@ == old(self)@,
            old(self)@.len() > 0 ==> r == Some(old(self)@[0]) && final(self)@ == old(
                self,
            )@.skip(1),
    {
        proof {
            use_type_invariant(&*self);
        }
        if self.rp_ == self.wp_ {
            return None;
        }
        let ghost pre = self@;
        let data = self.buffer_[self.rp_];
        self.inc_rp();
        proof {
            assert(final(self)@ =~= pre.skip(1));
        }
        Some(data)
    }

    /// Whether the ring holds no byte.
    pub fn is_empty(&self) -> (r: bool)
        ensures
            r <==> self@.len() == 0,
    {
        proof {
            use_type_invariant(self);
        }
        if self.rp_ == self.wp_ {
            true
        } else {
            false
        }
    }

    fn inc_wp(&mut self)
        requires
            old(self).inv(),
        ensures
            final(self).rp_ == old(self).rp_,
            final(self).buffer_ == old(self).buffer_,
            final(self).wp_ == if old(self).wp_ + 1 == BUFFER_SIZE {
                0usize
            } else {
                (old(self).wp_ + 1) as usize
            },
    {
        self.wp_ = if self.wp_ + 1 == BUFFER_SIZE {
            0
        } else {
            self.wp_ + 1
        };
    }

    fn inc_rp(&mut self)
        requires
            old(self).inv(),
        ensures
            final(self).wp_ == old(self).wp_,
            final(self).buffer_ == old(self).buffer_,
            final(self).rp_ == if old(self).rp_ + 1 == BUFFER_SIZE {
                0usize
            } else {
                (old(self).rp_ + 1) as usize
            },
    {
        self.rp_ = if self.rp_ + 1 == BUFFER_SIZE {
            0
        } else {
            self.rp_ + 1
        };
    }
}

} // verus!
