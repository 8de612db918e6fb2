//! The device-tree blob: a read-only byte region whose size is whatever blob
//! was loaded, padded to whole words.
use vstd::prelude::*;

verus! {

#[derive(Debug)]
pub struct Dtb {
    pub buf: Vec<u8>,
}

impl Dtb {
    /// The byte contents.
    pub open spec fn contents(self) -> Seq<u8> {
        self.buf@
    }

    pub fn new(buf: Vec<u8>) -> (r: Dtb)
        requires
            buf@.len() % 4 == 0,
        ensures
            r.contents() == buf@,
    {
        Dtb { buf }
    }

    pub fn size(&self) -> (r: u64)
        ensures
            r == self.contents().len(),
    {
        self.buf.len() as u64
    }

    pub fn as_u8(&self) -> (r: &[u8])
        ensures
            r@ == self.contents(),
    {
        self.buf.as_slice()
    }

    pub fn byte(&self, i: u64) -> (r: u8)
        requires
            i < self.contents().len(),
        ensures
            r == self.contents()[i as int],
    {
        let n: usize = self.buf.len();
        self.buf[i as usize]
    }
}

} // verus!
