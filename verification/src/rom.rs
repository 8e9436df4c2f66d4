use vstd::prelude::*;

verus! {

/// A program image: the bytes of a program and the name it was read under.
#[derive(Debug)]
pub struct ROM {
    pub name: String,
    raw: Vec<u8>,
}

impl View for ROM {
    type V = Seq<u8>;

    closed spec fn view(&self) -> Seq<u8> {
        self.raw@
    }
}

impl ROM {
    /// The name of the image, as a sequence of characters.
    pub closed spec fn spec_name(&self) -> Seq<char> {
        self.name@
    }

    /// The image that holds `raw`, read under the name `path`.
    pub fn new(path: &str, raw: Vec<u8>) -> (rom: Self)
        ensures
            rom@ == raw@,
            rom.spec_name() == path@,
    {
        ROM { name: path.to_owned(), raw }
    }

    /// The number of bytes in the image.
    pub fn len(&self) -> (length: usize)
        ensures
            length == self@.len(),
    {
        self.raw.len()
    }

    /// A copy of the image's bytes.
    pub fn raw(&self) -> (bytes: Vec<u8>)
        ensures
            bytes@ == self@,
    {
        let bytes = self.raw.clone();
        assert(bytes@ =~= self.raw@);
        bytes
    }

    pub fn is_empty(&self) -> (empty: bool)
        ensures
            empty == (self@.len() == 0),
    {
        self.raw.len() == 0
    }
}

} // verus!
