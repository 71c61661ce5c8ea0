//! The write type that new files inherit from their directory.

use vstd::hash_map::StringHashMap;
use vstd::prelude::*;
use vstd::utf8::*;

use crate::config::kinds::{write_type_named, WriteType};

verus! {

/// Extended attribute of a directory that names the write type of files created
/// in it.
pub const WRITE_TYPE_XATTR_KEY: &'static str = "innerWriteType";

/// A write type that is either given or taken from the directory.
#[derive(Debug, Clone, Copy, PartialEq, Eq, Structural)]
pub enum WriteTypeXAttr {
    /// Given by the caller.
    Explicit(WriteType),
    /// Taken from the directory, if it names one.
    Inherit,
}

impl Default for WriteTypeXAttr {
    fn default() -> (r: Self)
        ensures
            r == WriteTypeXAttr::Inherit,
    {
        WriteTypeXAttr::Inherit
    }
}

/// `std::str::from_utf8`: the text that the bytes encode in UTF-8, and nothing
/// if they are not valid UTF-8.
#[verifier::external_body]
fn text_of(bytes: &Vec<u8>) -> (r: Option<&str>)
    ensures
        match r {
            Some(s) => valid_utf8(bytes@) && s@ == decode_utf8(bytes@),
            None => !valid_utf8(bytes@),
        },
{
    std::str::from_utf8(bytes).ok()
}

/// The write type that the attributes name: the attribute must be there, be
/// valid UTF-8 and spell a write type.
pub open spec fn inherited_write_type(xattr: Map<Seq<char>, Vec<u8>>) -> Option<WriteType> {
    if xattr.dom().contains(WRITE_TYPE_XATTR_KEY@) {
        let raw = xattr[WRITE_TYPE_XATTR_KEY@]@;
        if valid_utf8(raw) {
            write_type_named(decode_utf8(raw))
        } else {
            None
        }
    } else {
        None
    }
}

/// The write type that the attributes of a directory name, if they name one.
pub fn get_write_type_from_xattr(xattr: &StringHashMap<Vec<u8>>) -> (r: Option<WriteType>)
    ensures
        r == inherited_write_type(xattr@),
{
    match xattr.get(WRITE_TYPE_XATTR_KEY) {
        Some(raw) => match text_of(raw) {
            Some(s) => match WriteType::parse_name(s) {
                Ok(wt) => Some(wt),
                Err(_) => None,
            },
            None => None,
        },
        None => None,
    }
}

} // verus!
