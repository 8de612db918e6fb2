//! The RAM backing store: a plain byte buffer.
use vstd::prelude::*;

verus! {

#[derive(Debug)]
pub struct Ram {
    pub buf: Vec<u8>,
}

impl Ram {
    /// The byte contents.
    pub open spec fn contents(self) -> Seq<u8> {
        self.buf@
    }

    pub fn new(size: usize) -> (r: Ram)
        requires
            size % 4 == 0,
            size <= 0x1_0000_0000,
        ensures
            r.contents().len() == size,
            forall|i: int| 0 <= i < size ==> r.contents()[i] == 0,
    {
        let mut buf: Vec<u8> = Vec::new();
        let mut i: usize = 0;
        while i < size
            invariant
                i <= size,
                buf@.len() == i,
                forall|j: int| 0 <= j < i ==> buf@[j] == 0,
            decreases size - i,
        {
            buf.push(0);
            i = i + 1;
        }
        Ram { buf }
    }

    pub fn size(&self) -> (r: u64)
        ensures
            r == self.contents().len(),
    {
        self.buf.len() as u64
    }

    pub fn as_u8(&self) -> (r: &[u8])
        ensures
            r@ == self.contents(),
    {
        self.buf.as_slice()
    }

    pub fn byte(&self, i: u64) -> (r: u8)
        requires
            i < self.contents().len(),
        ensures
            r == self.contents()[i as int],
    {
        let n: usize = self.buf.len();
        self.buf[i as usize]
    }

    pub fn set_byte(&mut self, i: u64, v: u8)
        requires
            i < old(self).contents().len(),
        ensures
            final(self).contents() == old(self).contents().update(i as int, v),
    {
        let n: usize = self.buf.len();
        self.buf[i as usize] = v;
    }

    /// Copy a block of bytes into RAM at the given offset.
    pub fn write_block(&mut self, offset: usize, data: &[u8])
        requires
            offset + data@.len() <= old(self).contents().len(),
        ensures
            final(self).contents().len() == old(self).contents().len(),
            forall|i: int|
                offset <= i < offset + data@.len() ==> final(self).contents()[i] == data@[i
                    - offset],
            forall|i: int|
                0 <= i < old(self).contents().len() && !(offset <= i < offset + data@.len())
                    ==> final(self).contents()[i] == old(self).contents()[i],
    {
        let mut i: usize = 0;
        let n: usize = data.len();
        let total: usize = self.buf.len();
        while i < n
            invariant
                i <= n,
                n == data@.len(),
                total == self.contents().len(),
                offset + n <= total,
                offset + n <= self.contents().len(),
                self.contents().len() == old(self).contents().len(),
                forall|j: int| offset <= j < offset + i ==> self.contents()[j] == data@[j - offset],
                forall|j: int|
                    0 <= j < old(self).contents().len() && !(offset <= j < offset + i)
                        ==> self.contents()[j] == old(self).contents()[j],
            decreases n - i,
        {
            let b: u8 = data[i];
            self.buf[offset + i] = b;
            i = i + 1;
        }
    }
}

} // verus!
