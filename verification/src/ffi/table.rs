//! String-keyed tables of the configuration document, kept in `hashbrown` maps.
//!
//! Nothing in this file is proved: each function states what the `hashbrown`
//! method it calls does to the entries of the table.

use vstd::prelude::*;

verus! {

/// A namespace of code offsets: `hashbrown::HashMap<String, isize>`.
#[verifier::external_body]
pub struct OffsetTable {
    entries: hashbrown::HashMap<String, isize>,
}

/// A namespace of register locations: `hashbrown::HashMap<String, (char, usize)>`,
/// each value a class tag and an index.
#[verifier::external_body]
pub struct RegisterTable {
    entries: hashbrown::HashMap<String, (char, usize)>,
}

/// The key-value pairs that an [`OffsetTable`] holds.
pub uninterp spec fn offset_entries(table: OffsetTable) -> Map<Seq<char>, isize>;

/// The key-value pairs that a [`RegisterTable`] holds.
pub uninterp spec fn register_entries(table: RegisterTable) -> Map<Seq<char>, (char, usize)>;

/// `hashbrown::HashMap::new`: a map without entries.
#[verifier::external_body]
pub(crate) fn offsets_new() -> (table: OffsetTable)
    ensures
        offset_entries(table) == (Map::<Seq<char>, isize>::empty()),
{
    OffsetTable { entries: hashbrown::HashMap::new() }
}

/// `hashbrown::HashMap::insert`: afterwards `key` maps to `value` and every
/// other key is as before; the value that `key` had before is returned.
#[verifier::external_body]
pub(crate) fn offsets_insert(table: &mut OffsetTable, key: String, value: isize) -> (previous:
    Option<isize>)
    ensures
        offset_entries(*final(table)) == offset_entries(*old(table)).insert(key@, value),
        previous == (if offset_entries(*old(table)).contains_key(key@) {
            Some(offset_entries(*old(table))[key@])
        } else {
            None
        }),
{
    table.entries.insert(key, value)
}

/// `hashbrown::HashMap::get`: the value stored under `key`, if there is one.
#[verifier::external_body]
pub(crate) fn offsets_get(table: &OffsetTable, key: &str) -> (value: Option<isize>)
    ensures
        value == (if offset_entries(*table).contains_key(key@) {
            Some(offset_entries(*table)[key@])
        } else {
            None
        }),
{
    table.entries.get(key).copied()
}

/// `hashbrown::HashMap::new`: a map without entries.
#[verifier::external_body]
pub(crate) fn registers_new() -> (table: RegisterTable)
    ensures
        register_entries(table) == (Map::<Seq<char>, (char, usize)>::empty()),
{
    RegisterTable { entries: hashbrown::HashMap::new() }
}

/// `hashbrown::HashMap::insert`: afterwards `key` maps to `value` and every
/// other key is as before; the value that `key` had before is returned.
#[verifier::external_body]
pub(crate) fn registers_insert(table: &mut RegisterTable, key: String, value: (char, usize)) -> (previous:
    Option<(char, usize)>)
    ensures
        register_entries(*final(table)) == register_entries(*old(table)).insert(key@, value),
        previous == (if register_entries(*old(table)).contains_key(key@) {
            Some(register_entries(*old(table))[key@])
        } else {
            None
        }),
{
    table.entries.insert(key, value)
}

/// `hashbrown::HashMap::get`: the value stored under `key`, if there is one.
#[verifier::external_body]
pub(crate) fn registers_get(table: &RegisterTable, key: &str) -> (value: Option<(char, usize)>)
    ensures
        value == (if register_entries(*table).contains_key(key@) {
            Some(register_entries(*table)[key@])
        } else {
            None
        }),
{
    table.entries.get(key).copied()
}

} // verus!
