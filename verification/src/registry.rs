//! Tables keyed by name, kept in `hashbrown::HashMap`s: names to positions, and
//! names to texts.

use vstd::prelude::*;

verus! {

/// Names with a position each, kept in a `hashbrown::HashMap<String, usize>`.
#[verifier::external_body]
pub struct NameTable {
    inner: hashbrown::HashMap<String, usize>,
}

/// The names a [`NameTable`] holds, each with its position.
pub uninterp spec fn name_table_contents(t: NameTable) -> Map<Seq<char>, usize>;

impl View for NameTable {
    type V = Map<Seq<char>, usize>;

    open spec fn view(&self) -> Map<Seq<char>, usize> {
        name_table_contents(*self)
    }
}

impl NameTable {
    /// Calls `hashbrown::HashMap::new`, which creates an empty table.
    #[verifier::external_body]
    pub(crate) fn new() -> (r: Self)
        ensures
            name_table_contents(r) =~= Map::empty(),
    {
        NameTable { inner: hashbrown::HashMap::new() }
    }

    /// Calls `hashbrown::HashMap::get`, which returns the position of the name.
    #[verifier::external_body]
    pub(crate) fn get(&self, name: &str) -> (r: Option<usize>)
        ensures
            r == name_table_contents(*self).get(name@),
    {
        self.inner.get(name).copied()
    }

    /// Calls `hashbrown::HashMap::insert`, which sets the position of the name,
    /// replacing the one it had.
    #[verifier::external_body]
    pub(crate) fn insert(&mut self, name: String, pos: usize) -> (r: Option<usize>)
        ensures
            name_table_contents(*final(self)) == name_table_contents(*old(self)).insert(name@, pos),
            r == name_table_contents(*old(self)).get(name@),
    {
        self.inner.insert(name, pos)
    }
}

/// Names with a text each, kept in a `hashbrown::HashMap<String, String>`.
#[verifier::external_body]
pub struct TextTable {
    inner: hashbrown::HashMap<String, String>,
}

/// The names a [`TextTable`] holds, each with its text.
pub uninterp spec fn text_table_contents(t: TextTable) -> Map<Seq<char>, Seq<char>>;

impl View for TextTable {
    type V = Map<Seq<char>, Seq<char>>;

    open spec fn view(&self) -> Map<Seq<char>, Seq<char>> {
        text_table_contents(*self)
    }
}

impl TextTable {
    /// Calls `hashbrown::HashMap::new`, which creates an empty table.
    #[verifier::external_body]
    pub(crate) fn new() -> (r: Self)
        ensures
            text_table_contents(r) =~= Map::empty(),
    {
        TextTable { inner: hashbrown::HashMap::new() }
    }

    /// Calls `hashbrown::HashMap::get` and copies the text of the name.
    #[verifier::external_body]
    pub(crate) fn get(&self, name: &str) -> (r: Option<String>)
        ensures
            match r {
                Some(t) => text_table_contents(*self).contains_key(name@) && t@ == text_table_contents(
                    *self,
                )[name@],
                None => !text_table_contents(*self).contains_key(name@),
            },
    {
        self.inner.get(name).cloned()
    }

    /// Calls `hashbrown::HashMap::insert`, which sets the text of the name,
    /// replacing the one it had.
    #[verifier::external_body]
    pub(crate) fn insert(&mut self, name: String, text: String)
        ensures
            text_table_contents(*final(self)) == text_table_contents(*old(self)).insert(name@, text@),
    {
        self.inner.insert(name, text);
    }
}

} // verus!
