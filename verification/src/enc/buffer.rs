use vstd::prelude::*;

verus! {

/// An in-memory byte queue: bytes are written at the end and read from a
/// read position that only moves forward.
pub struct Buffer {
    data: Vec<u8>,
    read_offset: usize,
}

/// The bytes of a buffer view that have not been read yet.
pub open spec fn unread(v: (Seq<u8>, nat)) -> Seq<u8> {
    v.0.subrange(v.1 as int, v.0.len() as int)
}

/// How many bytes a read into room for `room` bytes takes from a buffer view.
pub open spec fn read_count(v: (Seq<u8>, nat), room: nat) -> nat {
    if room <= v.0.len() - v.1 {
        room
    } else {
        (v.0.len() - v.1) as nat
    }
}

impl View for Buffer {
    /// All bytes the buffer holds, and the read position.
    type V = (Seq<u8>, nat);

    closed spec fn view(&self) -> (Seq<u8>, nat) {
        (self.data@, self.read_offset as nat)
    }
}

impl Buffer {
    /// The read position never passes the end of the bytes held.
    #[verifier::type_invariant]
    spec fn well_formed(self) -> bool {
        self.read_offset <= self.data@.len()
    }

    /// A buffer holding a copy of `buf`, with nothing read yet.
    pub fn new(buf: &[u8]) -> (r: Buffer)
        ensures
            r@ == (buf@, 0nat),
    {
        let mut data = Vec::<u8>::new();
        data.extend_from_slice(buf);
        assert(data@ =~= buf@);
        return Buffer { data, read_offset: 0 };
    }

    /// Copies the next unread bytes into the front of `buf`, as many as fit,
    /// and returns how many were copied.
    pub fn read(&mut self, buf: &mut [u8]) -> (r: usize)
        ensures
            old(self)@.1 <= old(self)@.0.len(),
            r == read_count(old(self)@, old(buf)@.len()),
            r <= old(buf)@.len(),
            r <= unread(old(self)@).len(),
            r == old(buf)@.len() || r == unread(old(self)@).len(),
            final(self)@ == (old(self)@.0, (old(self)@.1 + r) as nat),
            final(buf)@ == old(self)@.0.subrange(old(self)@.1 as int, old(self)@.1 + r)
                + old(buf)@.subrange(r as int, old(buf)@.len() as int),
    {
        proof {
            use_type_invariant(&*self);
        }
        let data_len: usize = self.data.len();
        let remaining: usize = data_len - self.read_offset;
        let bytes_to_read: usize = if buf.len() < remaining {
            buf.len()
        } else {
            remaining
        };
        let ghost old_buf = buf@;
        let mut i: usize = 0;
        while i < bytes_to_read
            invariant
                0 <= i <= bytes_to_read,
                bytes_to_read <= buf@.len(),
                self.read_offset + bytes_to_read <= self.data@.len(),
                self.data@.len() == data_len,
                buf@.len() == old_buf.len(),
                forall|j: int| 0 <= j < i ==> buf@[j] == self.data@[self.read_offset + j],
                forall|j: int| i <= j < buf@.len() ==> buf@[j] == old_buf[j],
            decreases bytes_to_read - i,
        {
            buf[i] = self.data[self.read_offset + i];
            i = i + 1;
        }
        assert(buf@ =~= self.data@.subrange(self.read_offset as int, self.read_offset + bytes_to_read)
            + old_buf.subrange(bytes_to_read as int, old_buf.len() as int));
        self.read_offset = self.read_offset + bytes_to_read;
        return bytes_to_read;
    }

    /// Appends all of `buf` and returns how many bytes were taken.
    pub fn write(&mut self, buf: &[u8]) -> (r: usize)
        ensures
            old(self)@.1 <= old(self)@.0.len(),
            r == buf@.len(),
            final(self)@ == (old(self)@.0 + buf@, old(self)@.1),
    {
        let mut taken = Buffer { data: Vec::new(), read_offset: 0 };
        core::mem::swap(self, &mut taken);
        proof {
            use_type_invariant(&taken);
        }
        let Buffer { mut data, read_offset } = taken;
        data.extend_from_slice(buf);
        assert(data@ =~= old(self)@.0 + buf@);
        *self = Buffer { data, read_offset };
        return buf.len();
    }

    /// Nothing is held back, so there is nothing to flush.
    pub fn flush(&mut self)
        ensures
            final(self)@ == old(self)@,
    {
    }
}

/// Bytes come out of a buffer in the order they went in: after writing `x`
/// to a buffer, a read with room for at least everything unread takes the
/// bytes that were unread before, followed by `x`.
pub proof fn lemma_read_after_write(v: (Seq<u8>, nat), x: Seq<u8>, room: nat)
    requires
        v.1 <= v.0.len(),
        unread(v).len() + x.len() <= room,
    ensures
        read_count((v.0 + x, v.1), room) == unread(v).len() + x.len(),
        (v.0 + x).subrange(v.1 as int, (v.1 + read_count((v.0 + x, v.1), room)) as int) == unread(v) + x,
{
    assert((v.0 + x).subrange(v.1 as int, (v.1 + unread(v).len() + x.len()) as int) =~= unread(v) + x);
}

/// A read takes as many bytes as both the room and the unread bytes allow:
/// never more than either, and all of one of them. So with less room than
/// unread bytes it fills the room, and otherwise it takes every unread byte.
pub proof fn lemma_read_count_is_min(v: (Seq<u8>, nat), room: nat)
    requires
        v.1 <= v.0.len(),
    ensures
        read_count(v, room) <= room,
        read_count(v, room) <= unread(v).len(),
        read_count(v, room) == room || read_count(v, room) == unread(v).len(),
        room < unread(v).len() ==> read_count(v, room) == room,
        unread(v).len() <= room ==> read_count(v, room) == unread(v).len(),
{
}

/// A read with room for everything unread takes exactly the unread bytes,
/// in order; from a new buffer, that is every byte it was made from.
pub proof fn lemma_read_takes_unread(v: (Seq<u8>, nat), room: nat)
    requires
        v.1 <= v.0.len(),
        unread(v).len() <= room,
    ensures
        read_count(v, room) == unread(v).len(),
        v.0.subrange(v.1 as int, (v.1 + read_count(v, room)) as int) == unread(v),
{
}

} // verus!
