//! A memory-backed host collaborator: a store of (path, content) pairs
//! that really keeps what is written, in contrast to the simulated
//! collaborator in `host`, which fabricates its replies. Against this
//! collaborator the write/read round trip holds and is proved below.

use vstd::prelude::*;

verus! {

/// The content under `path`, if any; the most recent write wins.
pub open spec fn spec_file_lookup(files: Seq<(Seq<char>, Seq<char>)>, path: Seq<char>) -> Option<
    Seq<char>,
>
    decreases files.len(),
{
    if files.len() == 0 {
        None
    } else if files.first().0 == path {
        Some(files.first().1)
    } else {
        spec_file_lookup(files.drop_first(), path)
    }
}

/// The store after a write: the new pair shadows every older one.
pub open spec fn spec_file_write(
    files: Seq<(Seq<char>, Seq<char>)>,
    path: Seq<char>,
    content: Seq<char>,
) -> Seq<(Seq<char>, Seq<char>)> {
    seq![(path, content)] + files
}

/// A filesystem collaborator that stores files in memory.
pub struct MemHost {
    pub files: Vec<(String, String)>,
}

impl MemHost {
    /// The store's mathematical shape.
    pub open spec fn model(self) -> Seq<(Seq<char>, Seq<char>)> {
        self.files.deep_view()
    }

    /// An empty store.
    pub fn new() -> (r: MemHost)
        ensures
            r.model() =~= Seq::<(Seq<char>, Seq<char>)>::empty(),
    {
        MemHost { files: Vec::new() }
    }

    /// Stores `content` under `path`, shadowing any earlier write.
    pub fn write_file(&mut self, path: &String, content: &String) -> (r: Result<(), String>)
        ensures
            r is Ok,
            final(self).model() == spec_file_write(old(self).model(), path@, content@),
    {
        self.files.insert(0, (path.clone(), content.clone()));
        proof {
            assert(self.model() =~= spec_file_write(old(self).model(), path@, content@));
        }
        Ok(())
    }

    /// The content under `path`; an error names the missing path.
    pub fn read_file(&self, path: &String) -> (r: Result<String, String>)
        ensures
            match r {
                Ok(c) => spec_file_lookup(self.model(), path@) == Some(c@),
                Err(e) => spec_file_lookup(self.model(), path@) is None && e@ == "file not found: "@
                    + path@,
            },
    {
        let ghost all = self.model();
        proof {
            assert(all.skip(0) =~= all);
        }
        let mut i: usize = 0;
        loop
            invariant
                i <= self.files@.len(),
                all == self.model(),
                all.len() == self.files@.len(),
                spec_file_lookup(all, path@) == spec_file_lookup(all.skip(i as int), path@),
            decreases self.files@.len() - i,
        {
            if i >= self.files.len() {
                proof {
                    assert(all.skip(i as int) =~= Seq::<(Seq<char>, Seq<char>)>::empty());
                }
                return Err(String::from_str("file not found: ").concat(path.as_str()));
            }
            proof {
                assert(all.skip(i as int).drop_first() =~= all.skip(i as int + 1));
                assert(all.skip(i as int).first() == all[i as int]);
            }
            let entry = &self.files[i];
            if entry.0 == *path {
                return Ok(entry.1.clone());
            }
            i = i + 1;
        }
    }

    /// Whether anything is stored under `path`.
    pub fn file_exists(&self, path: &String) -> (r: bool)
        ensures
            r == (spec_file_lookup(self.model(), path@) is Some),
    {
        let ghost all = self.model();
        proof {
            assert(all.skip(0) =~= all);
        }
        let mut i: usize = 0;
        loop
            invariant
                i <= self.files@.len(),
                all == self.model(),
                all.len() == self.files@.len(),
                spec_file_lookup(all, path@) == spec_file_lookup(all.skip(i as int), path@),
            decreases self.files@.len() - i,
        {
            if i >= self.files.len() {
                proof {
                    assert(all.skip(i as int) =~= Seq::<(Seq<char>, Seq<char>)>::empty());
                }
                return false;
            }
            proof {
                assert(all.skip(i as int).drop_first() =~= all.skip(i as int + 1));
                assert(all.skip(i as int).first() == all[i as int]);
            }
            let entry = &self.files[i];
            if entry.0 == *path {
                return true;
            }
            i = i + 1;
        }
    }
}

/// Round trip: reading a path right after writing it returns exactly
/// the content written, whatever the store held before — for every
/// path and every content, the empty string included.
pub proof fn lemma_write_then_read(
    files: Seq<(Seq<char>, Seq<char>)>,
    path: Seq<char>,
    content: Seq<char>,
)
    ensures
        spec_file_lookup(spec_file_write(files, path, content), path) == Some(content),
{
    assert(spec_file_write(files, path, content).first() == (path, content));
}

/// A write leaves every other path exactly as it was.
pub proof fn lemma_write_preserves_others(
    files: Seq<(Seq<char>, Seq<char>)>,
    path: Seq<char>,
    content: Seq<char>,
    other: Seq<char>,
)
    requires
        other != path,
    ensures
        spec_file_lookup(spec_file_write(files, path, content), other) == spec_file_lookup(
            files,
            other,
        ),
{
    assert(spec_file_write(files, path, content).drop_first() =~= files);
}

} // verus!
