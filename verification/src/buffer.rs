//! Memory buffers that the native library owns.

use vstd::prelude::*;
use vstd::string::StringSliceAdditionalSpecFns;
use crate::owner::{unless_one, CBox, Resource};
use crate::util::{nul_free, with_cstr, NativeRef};

verus! {


/// A buffer of bytes that the native library owns.
#[derive(Clone, Copy, Debug, PartialEq, Eq, Structural)]
pub struct MemoryBuffer {
    /// The raw handle.
    pub raw: usize,
}

impl NativeRef for MemoryBuffer {
    open spec fn raw_spec(&self) -> usize {
        self.raw
    }

    open spec fn project(raw: usize) -> Self {
        MemoryBuffer { raw }
    }

    fn from_raw(raw: usize) -> (r: Self) {
        MemoryBuffer { raw }
    }

    fn as_raw(&self) -> (raw: usize) {
        self.raw
    }

    proof fn raw_round_trip(raw: usize) {
    }

    proof fn ref_round_trip(r: Self) {
    }
}

impl MemoryBuffer {
    /// Reads what the loading of a file into a buffer returned: the owner of
    /// the message where the status is 1, else the owner of the buffer.
    pub fn new_from_file(status: i32, output: usize, error: usize) -> (r: Result<CBox, CBox>)
        requires
            status == 1 ==> error != 0,
            status != 1 ==> output != 0,
        ensures
            status == 1 ==> r == Err::<CBox, CBox>(
                CBox { resource: Resource::Message, raw: error },
            ),
            status != 1 ==> r == Ok::<CBox, CBox>(
                CBox { resource: Resource::MemoryBuffer, raw: output },
            ),
    {
        unless_one(status, Resource::MemoryBuffer, output, error)
    }

    /// Takes ownership of the buffer that was made from a string; this never
    /// fails.
    pub fn new_from_str(output: usize) -> (r: Result<CBox, CBox>)
        requires
            output != 0,
        ensures
            r == Ok::<CBox, CBox>(CBox { resource: Resource::MemoryBuffer, raw: output }),
    {
        Ok(CBox::new(Resource::MemoryBuffer, output))
    }

    /// The NUL-terminated name that a buffer made from a string is given:
    /// the name where there is one, else the empty name.
    pub fn name_for(name: Option<&str>) -> (buf: Vec<u8>)
        requires
            name.is_some() ==> nul_free(name.unwrap().spec_bytes()),
        ensures
            name.is_some() ==> buf@ == name.unwrap().spec_bytes().push(0u8),
            name.is_none() ==> buf@ == seq![0u8],
    {
        match name {
            Some(n) => with_cstr(n),
            None => {
                let mut buf: Vec<u8> = Vec::new();
                buf.push(0u8);
                assert(buf@ =~= seq![0u8]);
                buf
            },
        }
    }
}

} // verus!
