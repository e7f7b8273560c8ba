//! Which files are watched, and which are to be watched anew.

use crate::text::string_eq;
use vstd::prelude::*;

verus! {

/// The files that a watcher watches, and how many events it holds back
/// while its handler is busy.
#[derive(Debug, PartialEq, Eq)]
pub struct FileWatcher {
    buffer: usize,
    paths: Vec<String>,
}

impl View for FileWatcher {
    type V = Set<Seq<char>>;

    closed spec fn view(&self) -> Set<Seq<char>> {
        self.paths.deep_view().to_set()
    }
}

impl FileWatcher {
    /// How many events the watcher holds back.
    pub closed spec fn capacity(&self) -> usize {
        self.buffer
    }

    /// The watched paths, each once.
    pub closed spec fn listed(&self) -> Seq<Seq<char>> {
        self.paths.deep_view()
    }

    /// The invariant of the type: no path is listed twice.
    #[verifier::type_invariant]
    closed spec fn wf(&self) -> bool {
        self.paths.deep_view().no_duplicates()
    }

    /// A watcher that watches nothing yet and holds back `buffer` events.
    pub fn new(buffer: usize) -> (r: Self)
        ensures
            r@ == Set::<Seq<char>>::empty(),
            r.capacity() == buffer,
    {
        let r = FileWatcher { buffer, paths: Vec::new() };
        assert(r.paths.deep_view() =~= Seq::empty());
        assert(r.paths.deep_view().to_set() =~= Set::empty());
        r
    }

    /// How many events the watcher holds back.
    pub fn buffer(&self) -> (n: usize)
        ensures
            n == self.capacity(),
    {
        self.buffer
    }

    /// Adds `path` to the watched files; a file that is watched already is
    /// not added again.
    pub fn watch(&mut self, path: String)
        ensures
            final(self)@ == old(self)@.insert(path@),
            final(self).listed() == (if old(self).listed().contains(path@) {
                old(self).listed()
            } else {
                old(self).listed().push(path@)
            }),
            final(self).capacity() == old(self).capacity(),
    {
        proof {
            use_type_invariant(&*self);
        }
        let ghost listed = self.paths.deep_view();
        let mut i: usize = 0;
        while i < self.paths.len()
            invariant
                i <= self.paths.len(),
                listed == self.paths.deep_view(),
                forall|k: int| 0 <= k < i ==> listed[k] != path@,
            decreases self.paths.len() - i,
        {
            if string_eq(self.paths[i].as_str(), path.as_str()) {
                assert(listed[i as int] == path@);
                assert(listed.to_set().contains(path@));
                assert(listed.to_set() =~= listed.to_set().insert(path@));
                return;
            }
            i += 1;
        }
        let mut paths: Vec<String> = Vec::new();
        let mut k: usize = 0;
        while k < self.paths.len()
            invariant
                k <= self.paths.len(),
                listed == self.paths.deep_view(),
                paths.deep_view() == listed.take(k as int),
            decreases self.paths.len() - k,
        {
            let ghost before = paths.deep_view();
            let p = self.paths[k].clone();
            paths.push(p);
            assert(paths.deep_view() =~= before.push(p@));
            assert(listed.take(k + 1) =~= listed.take(k as int).push(listed[k as int]));
            k += 1;
        }
        assert(listed.take(listed.len() as int) =~= listed);
        paths.push(path);
        proof {
            assert(!listed.contains(path@));
            let after = paths.deep_view();
            assert(after =~= listed.push(path@));
            assert(after.no_duplicates());
            assert(after.to_set() =~= listed.to_set().insert(path@)) by {
                assert forall|q: Seq<char>| after.to_set().contains(q) <==> listed.to_set().insert(
                    path@,
                ).contains(q) by {
                    if after.contains(q) {
                        let j = choose|j: int| 0 <= j < after.len() && after[j] == q;
                        if j < listed.len() {
                            assert(listed[j] == q);
                        }
                    }
                    if listed.contains(q) {
                        let j = choose|j: int| 0 <= j < listed.len() && listed[j] == q;
                        assert(after[j] == q);
                    }
                    if q == path@ {
                        assert(after[listed.len() as int] == q);
                    }
                }
            }
        }
        self.paths = paths;
    }

    /// The watched paths, each once, in the order in which they were added.
    pub fn paths(&self) -> (r: Vec<String>)
        ensures
            r.deep_view() == self.listed(),
            r.deep_view().to_set() == self@,
    {
        let r = self.paths.clone();
        assert(r.deep_view() =~= self.paths.deep_view());
        r
    }
}

/// The paths that are to be watched anew after an event: all paths of the
/// event where it says that files were removed, as editors and mounted
/// secrets replace a file by removing it; none after any other event.
pub fn paths_to_rewatch(is_remove: bool, event_paths: &Vec<String>) -> (r: Vec<String>)
    ensures
        r.deep_view() == (if is_remove {
            event_paths.deep_view()
        } else {
            Seq::empty()
        }),
{
    if is_remove {
        let r = event_paths.clone();
        assert(r.deep_view() =~= event_paths.deep_view());
        r
    } else {
        let r: Vec<String> = Vec::new();
        assert(r.deep_view() =~= Seq::empty());
        r
    }
}

} // verus!
