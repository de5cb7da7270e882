//! NUL-terminated text as the engine's C interface takes it.

use vstd::prelude::*;
use vstd::string::StringSliceAdditionalSpecFns;

use crate::error::Error;

verus! {

/// Text converted for the engine's C interface: the UTF-8 bytes of a
/// string followed by one terminating NUL, with no NUL inside.
#[derive(Debug)]
pub struct CText {
    bytes: Vec<u8>,
}

impl CText {
    #[verifier::type_invariant]
    spec fn well_formed(self) -> bool {
        &&& self.bytes@.len() >= 1
        &&& self.bytes@.last() == 0u8
        &&& forall|i: int| 0 <= i < self.bytes@.len() - 1 ==> self.bytes@[i] != 0u8
    }
}

impl View for CText {
    type V = Seq<u8>;

    /// The text's bytes, without the terminating NUL.
    closed spec fn view(&self) -> Seq<u8> {
        self.bytes@.drop_last()
    }
}

impl CText {
    /// Converts `s` for the C interface.
    ///
    /// A string that holds a NUL byte cannot be passed as a C string;
    /// it is rejected with `Error::InvalidArguments`.
    pub fn new(s: &str) -> (r: Result<CText, Error>)
        ensures
            r is Ok <==> !s.spec_bytes().contains(0u8),
            r matches Ok(c) ==> c@ == s.spec_bytes(),
            r matches Err(e) ==> e == Error::InvalidArguments,
    {
        let src = s.as_bytes();
        let n: usize = src.len();
        let mut bytes: Vec<u8> = Vec::new();
        let mut i: usize = 0;
        while i < n
            invariant
                n == src@.len(),
                src@ == s.spec_bytes(),
                i <= n,
                bytes@ == src@.take(i as int),
                forall|k: int| 0 <= k < i ==> src@[k] != 0u8,
            decreases n - i,
        {
            if src[i] == 0 {
                assert(s.spec_bytes()[i as int] == 0u8);
                return Err(Error::InvalidArguments);
            }
            bytes.push(src[i]);
            i = i + 1;
            assert(bytes@ =~= src@.take(i as int));
        }
        assert(bytes@ =~= src@);
        assert(!s.spec_bytes().contains(0u8)) by {
            if s.spec_bytes().contains(0u8) {
                let k: int = choose|k: int| 0 <= k < s.spec_bytes().len() && s.spec_bytes()[k] == 0u8;
                assert(src@[k] != 0u8);
            }
        }
        let ghost content = bytes@;
        bytes.push(0u8);
        assert(bytes@.drop_last() =~= content);
        Ok(CText { bytes })
    }

    /// Converts an optional string, as the optional arguments of the C
    /// interface take it: `None` stays `None`.
    pub fn new_optional(s: Option<&str>) -> (r: Result<Option<CText>, Error>)
        ensures
            s is None ==> r == Ok::<Option<CText>, Error>(None),
            s matches Some(t) ==> {
                &&& r is Ok <==> !t.spec_bytes().contains(0u8)
                &&& r matches Ok(o) ==> (o matches Some(c) && c@ == t.spec_bytes())
                &&& r matches Err(e) ==> e == Error::InvalidArguments
            },
    {
        match s {
            None => Ok(None),
            Some(t) => match CText::new(t) {
                Ok(c) => Ok(Some(c)),
                Err(e) => Err(e),
            },
        }
    }

    /// The bytes handed to the engine, terminating NUL included.
    pub fn as_bytes_with_nul(&self) -> (b: &[u8])
        ensures
            b@ == self@.push(0u8),
    {
        proof {
            use_type_invariant(self);
            assert(self.bytes@ =~= self.bytes@.drop_last().push(0u8));
        }
        self.bytes.as_slice()
    }

    /// Number of text bytes, terminating NUL not counted.
    pub fn len(&self) -> (n: usize)
        ensures
            n == self@.len(),
    {
        proof {
            use_type_invariant(self);
        }
        self.bytes.len() - 1
    }
}

} // verus!
