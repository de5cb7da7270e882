//! Arguments for registering a font from memory with the engine.

use vstd::prelude::*;
use vstd::string::StringSliceAdditionalSpecFns;

use crate::ctext::CText;
use crate::error::Error;

verus! {

/// A font registration request: the name it is registered under, its
/// bytes, an optional loader name, and whether the engine copies the
/// bytes (`true`) or keeps borrowing them (`false`, for data that lives
/// as long as the program).
#[derive(Debug)]
pub struct FontData<'a> {
    /// Registry name.
    pub name: CText,
    /// Font file bytes.
    pub data: &'a [u8],
    /// Loader name such as `ttf`; `None` lets the engine detect it.
    pub mimetype: Option<CText>,
    /// Whether the engine copies `data`.
    pub copy: bool,
}

impl<'a> FontData<'a> {
    /// Converts the arguments of a font registration for the engine.
    ///
    /// Fails with `Error::InvalidArguments` when `name` or `mimetype`
    /// holds a NUL byte, which no C string can carry.
    pub fn prepare(name: &str, data: &'a [u8], mimetype: Option<&str>, copy: bool) -> (r: Result<
        FontData<'a>,
        Error,
    >)
        ensures
            r is Ok <==> (!name.spec_bytes().contains(0u8) && match mimetype {
                Some(m) => !m.spec_bytes().contains(0u8),
                None => true,
            }),
            r matches Ok(f) ==> {
                &&& f.name@ == name.spec_bytes()
                &&& f.data@ == data@
                &&& f.copy == copy
                &&& match mimetype {
                    Some(m) => f.mimetype matches Some(c) && c@ == m.spec_bytes(),
                    None => f.mimetype is None,
                }
            },
            r matches Err(e) ==> e == Error::InvalidArguments,
    {
        let name = match CText::new(name) {
            Ok(c) => c,
            Err(e) => return Err(e),
        };
        let mimetype = match CText::new_optional(mimetype) {
            Ok(m) => m,
            Err(e) => return Err(e),
        };
        Ok(FontData { name, data, mimetype, copy })
    }
}

} // verus!
