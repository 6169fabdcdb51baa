use vstd::prelude::*;

use crate::byte::Byte;

verus! {

/// A file loaded whole into memory, each byte classified.
pub struct HexFile {
    filepath: String,
    data: Vec<Byte>,
    length: usize,
}

impl HexFile {
    /// The values of the file's bytes.
    pub closed spec fn contents(&self) -> Seq<u8> {
        self.data@.map_values(|b: Byte| b@)
    }

    pub closed spec fn path(&self) -> Seq<char> {
        self.filepath@
    }

    #[verifier::type_invariant]
    spec fn inv(&self) -> bool {
        self.length == self.data@.len()
    }

    /// The number of bytes in the file.
    pub fn len(&self) -> (r: usize)
        ensures
            r == self.contents().len(),
    {
        proof {
            use_type_invariant(self);
        }
        self.length
    }

    /// Builds the file from the bytes read from `filepath`.
    pub fn from_bytes(filepath: String, bytes: &Vec<u8>) -> (r: HexFile)
        ensures
            r.contents() == bytes@,
            r.path() == filepath@,
    {
        let mut data: Vec<Byte> = Vec::new();
        for i in 0..bytes.len()
            invariant
                data@.len() == i,
                forall|j: int| 0 <= j < i ==> #[trigger] data@[j]@ == bytes@[j],
        {
            data.push(Byte::new(bytes[i]));
        }
        assert(data@.map_values(|b: Byte| b@) =~= bytes@);
        let length = data.len();
        HexFile { filepath, data, length }
    }

    pub fn get_data(&self) -> (r: &Vec<Byte>)
        ensures
            r@.len() == self.contents().len(),
            forall|i: int| 0 <= i < r@.len() ==> #[trigger] r@[i]@ == self.contents()[i],
    {
        &self.data
    }

    /// Does nothing: the file is shown through the panes.
    pub fn print(&self) {
    }
}

} // verus!
