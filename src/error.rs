//! Errors reported for directory declarations. Each carries the index of the
//! offending entry.
use vstd::prelude::*;

verus! {

#[derive(Debug)]
pub enum ConfigError {
    /// The entry is not a key/value table.
    DirsWrongBaseType(usize),
    /// A required field is absent: entry index and field name.
    DirsMissing(usize, &'static str),
    /// A field has the wrong type: entry index, field name, expected type.
    DirsWrongType(usize, &'static str, &'static str),
    /// rpm rejected the capability string: entry index and rpm's error.
    DirsInvalidCaps(usize, rpm::Error),
}

} // verus!
