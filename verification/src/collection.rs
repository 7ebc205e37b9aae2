//! The result of a transfer: an ordered list of pairs, each a file's name
//! and either its content hash or the place where it was written.

use std::slice::Iter;
use vstd::prelude::*;
use vstd::std_specs::iter::IteratorSpec;
use vstd::std_specs::slice::into_iter_elts;

verus! {

/// The files of one transfer, in transfer order. Each name comes with the
/// textual form of the file's content hash where the store lists the
/// collection, and with the file's location on this machine where the
/// files were announced by the sender and written as they arrived.
#[derive(Debug, Clone)]
pub struct Collection {
    files: Vec<(String, String)>,
}

impl View for Collection {
    type V = Seq<(Seq<char>, Seq<char>)>;

    closed spec fn view(&self) -> Seq<(Seq<char>, Seq<char>)> {
        self.files.deep_view()
    }
}

impl Default for Collection {
    fn default() -> (c: Self)
        ensures
            c@ == Seq::<(Seq<char>, Seq<char>)>::empty(),
    {
        Collection::new()
    }
}

/// The character sequences that a walk's pairs stand for.
pub open spec fn pair_views(pairs: Seq<(String, String)>) -> Seq<(Seq<char>, Seq<char>)> {
    pairs.map_values(|p: (String, String)| (p.0@, p.1@))
}

impl Collection {
    /// An empty collection.
    pub fn new() -> (c: Self)
        ensures
            c@ == Seq::<(Seq<char>, Seq<char>)>::empty(),
    {
        let c = Self { files: Vec::new() };
        assert(c.files.deep_view() =~= Seq::<(Seq<char>, Seq<char>)>::empty());
        c
    }

    /// Adds a file at the end.
    pub fn add_file(&mut self, name: String, hash: String)
        ensures
            final(self)@ == old(self)@.push((name@, hash@)),
    {
        self.files.push((name, hash));
        assert(self.files.deep_view() =~= old(self).files.deep_view().push((name@, hash@)));
    }

    /// Number of files.
    pub fn len(&self) -> (n: usize)
        ensures
            n == self@.len(),
    {
        self.files.len()
    }

    /// The pair at position `i`.
    pub fn get(&self, i: usize) -> (pair: &(String, String))
        requires
            i < self@.len(),
        ensures
            (pair.0@, pair.1@) == self@[i as int],
    {
        &self.files[i]
    }

    /// Walks the pairs in the order in which they were added: the walk
    /// hands out as many pairs as the collection holds, and they stand for
    /// exactly the collection's value. The collection is not changed.
    pub fn iter(&self) -> (it: Iter<'_, (String, String)>)
        ensures
            pair_views(into_iter_elts(it)) == self@,
            into_iter_elts(it).len() == self@.len(),
            IteratorSpec::decrease(&it) is Some,
            IteratorSpec::initial_value_relation(&it, &it),
    {
        let it = self.files.iter();
        assert(pair_views(self.files@) =~= self.files.deep_view());
        it
    }
}

} // verus!
