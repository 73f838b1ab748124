//! The narrow view of a configuration value that the parser needs: an entry
//! is either a table of named fields or something else, and a field is
//! either text or something else.
use vstd::prelude::*;
use vstd::string::*;

verus! {

/// One field of a declaration table.
#[derive(Debug)]
pub enum FieldValue {
    Text(String),
    /// Any value that is not text (an integer, an array, a nested table...).
    Other,
}

/// One declaration as read from the configuration document.
#[derive(Debug)]
pub enum EntryValue {
    /// A key/value table, in document order.
    Table(Vec<(String, FieldValue)>),
    /// Any value that is not a table.
    Other,
}

/// The text held by a field, if it is text.
pub open spec fn text_of(f: FieldValue) -> Option<Seq<char>> {
    match f {
        FieldValue::Text(s) => Some(s@),
        FieldValue::Other => None,
    }
}

/// The value stored under `key`: the first pair of the table with that key.
pub open spec fn lookup(t: Seq<(String, FieldValue)>, key: Seq<char>) -> Option<FieldValue>
    decreases t.len(),
{
    if t.len() == 0 {
        None
    } else if t[0].0@ == key {
        Some(t[0].1)
    } else {
        lookup(t.drop_first(), key)
    }
}

/// Character-wise equality of two strings.
pub fn str_eq(a: &str, b: &str) -> (r: bool)
    ensures
        r == (a@ == b@),
{
    let n = a.unicode_len();
    if n != b.unicode_len() {
        return false;
    }
    let mut i: usize = 0;
    while i < n
        invariant
            n == a@.len(),
            n == b@.len(),
            i <= n,
            forall|j: int| 0 <= j < i ==> a@[j] == b@[j],
        decreases n - i,
    {
        if a.get_char(i) != b.get_char(i) {
            return false;
        }
        i += 1;
    }
    assert(a@ =~= b@);
    true
}

/// Looks up `key` in a table; the first pair with that key wins.
pub fn table_get<'a>(t: &'a Vec<(String, FieldValue)>, key: &str) -> (r: Option<&'a FieldValue>)
    ensures
        match r {
            Some(f) => lookup(t@, key@) == Some(*f),
            None => lookup(t@, key@) is None,
        },
{
    let mut i: usize = 0;
    assert(t@.subrange(0, t@.len() as int) =~= t@);
    while i < t.len()
        invariant
            i <= t@.len(),
            lookup(t@, key@) == lookup(t@.subrange(i as int, t@.len() as int), key@),
        decreases t@.len() - i,
    {
        let ghost rest = t@.subrange(i as int, t@.len() as int);
        assert(rest.drop_first() =~= t@.subrange(i + 1, t@.len() as int));
        if str_eq(t[i].0.as_str(), key) {
            return Some(&t[i].1);
        }
        i += 1;
    }
    None
}

} // verus!
