//! The shared copy list: one process-wide ordered sequence of file-system
//! paths. Copy commands append to it, a successful paste clears it, and
//! entries can be removed by exact value.

use vstd::prelude::*;

verus! {

/// The character sequences of a sequence of path strings, path by path.
pub open spec fn path_views(paths: Seq<String>) -> Seq<Seq<char>> {
    paths.map_values(|p: String| p@)
}

/// The predicate removal filters by: an entry survives exactly when it
/// differs from `path`.
pub open spec fn differs_from(path: Seq<char>) -> spec_fn(Seq<char>) -> bool {
    |p: Seq<char>| p != path
}

/// `list` with every entry equal to `path` removed, the rest in order.
pub open spec fn without(list: Seq<Seq<char>>, path: Seq<char>) -> Seq<Seq<char>> {
    list.filter(differs_from(path))
}

/// The ordered list of paths awaiting a paste. Order is insertion order and
/// duplicates are kept; the surrounding process serializes access to it.
pub struct CopyList {
    items: Vec<String>,
}

impl View for CopyList {
    type V = Seq<Seq<char>>;

    closed spec fn view(&self) -> Seq<Seq<char>> {
        path_views(self.items@)
    }
}

impl CopyList {
    /// The list is created empty at process start.
    pub fn new() -> (list: CopyList)
        ensures
            list@ == Seq::<Seq<char>>::empty(),
    {
        let list = CopyList { items: Vec::new() };
        proof {
            assert(list@ =~= Seq::<Seq<char>>::empty());
        }
        list
    }

    /// How many paths the list currently holds.
    pub fn len(&self) -> (n: usize)
        ensures
            n == self@.len(),
    {
        self.items.len()
    }

    /// Adds `path` at the end; always succeeds.
    pub fn append(&mut self, path: String)
        ensures
            final(self)@ == old(self)@.push(path@),
    {
        let ghost before = self.items@;
        self.items.push(path);
        proof {
            assert(self@ =~= path_views(before).push(self.items@.last()@));
        }
    }

    /// An independent copy of the current sequence, safe to hand out while
    /// the list itself stays under the owner's lock.
    pub fn snapshot(&self) -> (paths: Vec<String>)
        ensures
            path_views(paths@) == self@,
    {
        let paths = self.items.clone();
        proof {
            assert forall|i: int| 0 <= i < paths@.len() implies paths@[i] == self.items@[i] by {
                assert(cloned::<String>(self.items@[i], paths@[i]));
            }
            assert(paths@ =~= self.items@);
        }
        paths
    }

    /// Empties the list.
    pub fn clear(&mut self)
        ensures
            final(self)@ == Seq::<Seq<char>>::empty(),
    {
        self.items.clear();
        proof {
            assert(self@ =~= Seq::<Seq<char>>::empty());
        }
    }

    /// Removes every entry exactly equal to `path`, not just the first; a
    /// path that is absent is no error.
    pub fn remove(&mut self, path: &String)
        ensures
            final(self)@ == without(old(self)@, path@),
    {
        let ghost orig = self.items@;
        let mut kept: Vec<String> = Vec::new();
        let mut i: usize = 0;
        while i < self.items.len()
            invariant
                i <= self.items@.len(),
                self.items@ == orig,
                path_views(kept@) == without(path_views(orig.subrange(0, i as int)), path@),
            decreases self.items@.len() - i,
        {
            let ghost prefix = path_views(orig.subrange(0, i as int));
            let entry: &String = &self.items[i];
            let matches_path: bool = *entry == *path;
            if !matches_path {
                kept.push(entry.clone());
            }
            proof {
                assert(orig.subrange(0, i + 1 as int) =~= orig.subrange(0, i as int).push(orig[i as int]));
                assert(path_views(orig.subrange(0, i + 1 as int)) =~= prefix.push(orig[i as int]@));
                lemma_without_push(prefix, orig[i as int]@, path@);
                if !matches_path {
                    assert(path_views(kept@) =~= without(prefix, path@).push(orig[i as int]@));
                }
            }
            i = i + 1;
        }
        proof {
            assert(orig.subrange(0, orig.len() as int) =~= orig);
        }
        self.items = kept;
    }
}

/// Filtering one more entry keeps it exactly when it differs from `path`.
proof fn lemma_without_push(list: Seq<Seq<char>>, entry: Seq<char>, path: Seq<char>)
    ensures
        entry != path ==> without(list.push(entry), path) == without(list, path).push(entry),
        entry == path ==> without(list.push(entry), path) == without(list, path),
{
    reveal_with_fuel(Seq::<_>::filter, 2);
    let extended = list.push(entry);
    assert(extended.last() == entry);
    assert(extended.drop_last() =~= list);
    assert(extended.drop_last() == list);
}

} // verus!
