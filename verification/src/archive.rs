//! What is known of an archive once it has been inspected or extracted.

use vstd::prelude::*;

verus! {

/// The lower-case form of an ASCII capital; every other character is itself.
pub open spec fn ascii_lower(c: char) -> char {
    if 'A' <= c && c <= 'Z' {
        ((c as int) + 32) as char
    } else {
        c
    }
}

/// `text` with each ASCII capital replaced by its lower-case form.
pub open spec fn lowered(text: Seq<char>) -> Seq<char> {
    Seq::new(text.len(), |i: int| ascii_lower(text[i]))
}

/// The count recorded under `key`: that of the first entry with this key, and
/// 0 where there is none.
pub open spec fn recorded(entries: Seq<(Seq<char>, usize)>, key: Seq<char>) -> usize
    decreases entries.len(),
{
    if entries.len() == 0 {
        0
    } else if entries[0].0 == key {
        entries[0].1
    } else {
        recorded(entries.drop_first(), key)
    }
}

/// What an [`ArchiveInfo`] stands for.
pub struct ArchiveInfoView {
    /// The first path component of each entry, as they were noted.
    pub top_level: Seq<Seq<char>>,
    /// The number of files by extension; extensions are noted in lower case.
    pub extension_counts: Seq<(Seq<char>, usize)>,
}

impl ArchiveInfoView {
    /// The number of files whose extension is `ext`, letter case aside.
    pub open spec fn count_ext(self, ext: Seq<char>) -> usize {
        recorded(self.extension_counts, lowered(ext))
    }

    /// The one name with which every entry starts, if there is exactly one
    /// such name.
    pub open spec fn single_top_level_dir(self) -> Option<Seq<char>> {
        if self.top_level.len() > 0 && forall|i: int|
            0 <= i < self.top_level.len() ==> #[trigger] self.top_level[i] == self.top_level[0] {
            Some(self.top_level[0])
        } else {
            None
        }
    }
}

/// Metadata of one archive: the first path components of its entries and the
/// number of its files by extension. It does not change once made.
pub struct ArchiveInfo {
    top_level: Vec<String>,
    extension_counts: Vec<(String, usize)>,
}

impl View for ArchiveInfo {
    type V = ArchiveInfoView;

    closed spec fn view(&self) -> ArchiveInfoView {
        ArchiveInfoView {
            top_level: self.top_level.deep_view(),
            extension_counts: self.extension_counts.deep_view(),
        }
    }
}

fn lower(c: char) -> (l: char)
    ensures
        l == ascii_lower(c),
{
    if 'A' <= c && c <= 'Z' {
        let code: u8 = c as u8;
        let shifted: u8 = code + 32;
        shifted as char
    } else {
        c
    }
}

/// Whether `key` is the lower-case form of `ext`.
fn is_lowered(key: &str, ext: &str) -> (same: bool)
    ensures
        same == (key@ == lowered(ext@)),
{
    let n = ext.unicode_len();
    if key.unicode_len() != n {
        return false;
    }
    let mut i: usize = 0;
    while i < n
        invariant
            i <= n,
            n == ext@.len(),
            n == key@.len(),
            forall|k: int| 0 <= k < i ==> key@[k] == ascii_lower(ext@[k]),
        decreases n - i,
    {
        if key.get_char(i) != lower(ext.get_char(i)) {
            assert(key@[i as int] != lowered(ext@)[i as int]);
            return false;
        }
        i += 1;
    }
    assert(key@ =~= lowered(ext@));
    true
}

impl ArchiveInfo {
    /// The metadata with these first components and these counts.
    pub fn new(top_level: Vec<String>, extension_counts: Vec<(String, usize)>) -> (info: Self)
        ensures
            info@.top_level == top_level.deep_view(),
            info@.extension_counts == extension_counts.deep_view(),
    {
        ArchiveInfo { top_level, extension_counts }
    }

    /// The number of files whose extension is `ext`, letter case aside.
    pub fn count_ext(&self, ext: &str) -> (count: usize)
        ensures
            count == self@.count_ext(ext@),
    {
        let ghost all = self.extension_counts.deep_view();
        let n = self.extension_counts.len();
        let mut i: usize = 0;
        assert(all.skip(0) =~= all);
        while i < n
            invariant
                i <= n,
                n == self.extension_counts.len(),
                all == self.extension_counts.deep_view(),
                recorded(all, lowered(ext@)) == recorded(all.skip(i as int), lowered(ext@)),
            decreases n - i,
        {
            let ghost rest = all.skip(i as int);
            assert(rest[0] == all[i as int]);
            assert(rest.drop_first() =~= all.skip(i as int + 1));
            if is_lowered(self.extension_counts[i].0.as_str(), ext) {
                return self.extension_counts[i].1;
            }
            i += 1;
        }
        assert(all.skip(n as int).len() == 0);
        0
    }

    /// The one name with which every entry starts, if there is exactly one
    /// such name.
    pub fn single_top_level_dir(&self) -> (dir: Option<String>)
        ensures
            dir.deep_view() == self@.single_top_level_dir(),
    {
        let n = self.top_level.len();
        if n == 0 {
            return None;
        }
        let mut i: usize = 1;
        while i < n
            invariant
                1 <= i <= n,
                n == self.top_level.len(),
                forall|k: int| 0 <= k < i ==> #[trigger] self@.top_level[k] == self@.top_level[0],
            decreases n - i,
        {
            if self.top_level[i] != self.top_level[0] {
                assert(self@.top_level[i as int] != self@.top_level[0]);
                return None;
            }
            i += 1;
        }
        Some(self.top_level[0].clone())
    }
}

} // verus!
