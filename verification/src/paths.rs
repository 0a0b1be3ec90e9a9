//! Paths as plain values: a path is the list of its components, outermost
//! first. Two paths are the same place exactly when their lists are equal, a
//! child is its directory's list with one more name at the end, and no
//! separator character ever has to be interpreted.

use vstd::prelude::*;

verus! {

/// The path of `name` directly inside `dir`.
pub open spec fn child(dir: Seq<Seq<char>>, name: Seq<char>) -> Seq<Seq<char>> {
    dir.push(name)
}

/// The path beside `path` whose last component is that of `path` with `suffix`
/// appended. The empty path has no last component: its sibling is `suffix`
/// alone.
pub open spec fn suffixed(path: Seq<Seq<char>>, suffix: Seq<char>) -> Seq<Seq<char>> {
    if path.len() == 0 {
        seq![suffix]
    } else {
        path.drop_last().push(path.last() + suffix)
    }
}

/// A path, held as its components.
pub struct FsPath {
    parts: Vec<String>,
}

impl View for FsPath {
    type V = Seq<Seq<char>>;

    closed spec fn view(&self) -> Seq<Seq<char>> {
        self.parts.deep_view()
    }
}

impl Clone for FsPath {
    fn clone(&self) -> (copy: Self)
        ensures
            copy@ == self@,
    {
        let mut parts: Vec<String> = Vec::new();
        let mut i: usize = 0;
        while i < self.parts.len()
            invariant
                i <= self.parts.len(),
                parts.len() == i,
                forall|k: int| 0 <= k < i ==> parts[k]@ == self.parts[k]@,
            decreases self.parts.len() - i,
        {
            parts.push(self.parts[i].clone());
            i += 1;
        }
        assert(parts.deep_view() =~= self.parts.deep_view());
        FsPath { parts }
    }
}

impl FsPath {
    /// The path with the given components.
    pub fn from_parts(parts: Vec<String>) -> (path: Self)
        ensures
            path@ == parts.deep_view(),
    {
        FsPath { parts }
    }

    /// The components, outermost first.
    pub fn parts(&self) -> (parts: &Vec<String>)
        ensures
            parts.deep_view() == self@,
    {
        &self.parts
    }

    /// The last component, which names the file or directory itself.
    pub fn file_name(&self) -> (name: Option<&str>)
        ensures
            name is Some <==> self@.len() > 0,
            name matches Some(text) ==> text@ == self@.last(),
    {
        let n = self.parts.len();
        if n == 0 {
            None
        } else {
            Some(self.parts[n - 1].as_str())
        }
    }

    /// The path of `name` directly inside this directory.
    pub fn join(&self, name: &str) -> (path: Self)
        ensures
            path@ == child(self@, name@),
    {
        let mut path = self.clone();
        let ghost before = path.parts.deep_view();
        path.parts.push(name.to_owned());
        assert(path.parts.deep_view() =~= before.push(name@));
        path
    }

    /// The sibling whose name is this path's name followed by `suffix`.
    pub fn with_suffix(&self, suffix: &str) -> (path: Self)
        ensures
            path@ == suffixed(self@, suffix@),
    {
        let mut path = self.clone();
        let ghost before = path.parts.deep_view();
        match path.parts.pop() {
            Some(last) => {
                let ghost stem = path.parts.deep_view();
                assert(stem =~= before.drop_last());
                assert(last@ == before.last());
                path.parts.push(last.concat(suffix));
                assert(path.parts.deep_view() =~= stem.push(before.last() + suffix@));
            },
            None => {
                path.parts.push(suffix.to_owned());
                assert(path.parts.deep_view() =~= seq![suffix@]);
            },
        }
        path
    }

    /// Whether the two paths name the same place.
    pub fn same_as(&self, other: &FsPath) -> (same: bool)
        ensures
            same == (self@ == other@),
    {
        if self.parts.len() != other.parts.len() {
            assert(self@.len() != other@.len());
            return false;
        }
        let mut i: usize = 0;
        while i < self.parts.len()
            invariant
                i <= self.parts.len(),
                self.parts.len() == other.parts.len(),
                forall|k: int| 0 <= k < i ==> self.parts[k]@ == other.parts[k]@,
            decreases self.parts.len() - i,
        {
            if self.parts[i] != other.parts[i] {
                assert(self@[i as int] != other@[i as int]);
                return false;
            }
            i += 1;
        }
        assert(self@ =~= other@);
        true
    }
}

} // verus!
