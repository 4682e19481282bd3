//! File discovery: filtering a recursive directory listing down to the
//! ripped files that live in a disc subdirectory, and capturing each file's
//! name and extension.
//!
//! The walk itself is I/O and happens outside the library; it hands over
//! one [`WalkEntry`] per filesystem entry, in walk order.

use vstd::prelude::*;
use vstd::string::StrSliceExecFns;
use crate::models::FileNameAndExt;
use crate::models::FileNameAndExtModel;
use crate::strutil::after_last;
use crate::strutil::contains_seq;
use crate::strutil::lemma_after_last_absent;
use crate::strutil::lemma_after_last_at;
use crate::strutil::find_last_char;
use crate::strutil::str_contains;

verus! {

/// One entry of a recursive directory walk: its path and whether it is a
/// regular file.
#[derive(Debug, Clone, PartialEq)]
pub struct WalkEntry {
    pub path: String,
    pub is_file: bool,
}

/// Mathematical image of a [`WalkEntry`].
#[verifier::ext_equal]
pub struct WalkEntryModel {
    pub path: Seq<char>,
    pub is_file: bool,
}

impl View for WalkEntry {
    type V = WalkEntryModel;

    open spec fn view(&self) -> WalkEntryModel {
        WalkEntryModel { path: self.path@, is_file: self.is_file }
    }
}

impl DeepView for WalkEntry {
    type V = WalkEntryModel;

    open spec fn deep_view(&self) -> WalkEntryModel {
        self.view()
    }
}

/// The file-name component of a path: what follows the last separator.
pub open spec fn entry_file_name(path: Seq<char>) -> Seq<char> {
    after_last(path, '/')
}

/// The extension of a path: what follows the last dot of the file name.
pub open spec fn entry_ext(path: Seq<char>) -> Seq<char> {
    after_last(entry_file_name(path), '.')
}

/// A file name carries an extension when it has a dot that is not its first
/// character (a name that starts with its only dot is a hidden file, not a
/// name with an extension).
pub open spec fn entry_has_ext(path: Seq<char>) -> bool {
    exists|k: int| 1 <= k < entry_file_name(path).len() && entry_file_name(path)[k] == '.'
}

/// Discovery keeps an entry when it is a regular file, lies under a disc
/// subdirectory, and its name carries an extension.
pub open spec fn is_ripped_candidate(e: WalkEntryModel) -> bool {
    e.is_file && contains_seq(e.path, "/disc"@) && entry_has_ext(e.path)
}

/// The discovered record of a kept entry.
pub open spec fn candidate_record(e: WalkEntryModel) -> FileNameAndExtModel {
    FileNameAndExtModel {
        path: e.path,
        file_name: entry_file_name(e.path),
        ext: entry_ext(e.path),
    }
}

/// The discovered records of a walk, in walk order: the kept entries,
/// each reduced to path, file name and extension.
pub open spec fn spec_discover(entries: Seq<WalkEntryModel>) -> Seq<FileNameAndExtModel>
    decreases entries.len(),
{
    if entries.len() == 0 {
        Seq::empty()
    } else {
        let rest = spec_discover(entries.drop_last());
        if is_ripped_candidate(entries.last()) {
            rest.push(candidate_record(entries.last()))
        } else {
            rest
        }
    }
}

/// Filters a directory walk down to the ripped files: regular files under a
/// disc subdirectory whose name carries an extension.  Everything else is
/// silently skipped; an empty result is valid.
pub fn get_ripped_filenames(entries: &Vec<WalkEntry>) -> (r: Vec<FileNameAndExt>)
    ensures
        r.deep_view() == spec_discover(entries.deep_view()),
{
    let mut r: Vec<FileNameAndExt> = Vec::new();
    let mut i: usize = 0;
    proof {
        assert(r.deep_view() =~= spec_discover(entries.deep_view().subrange(0, 0)));
    }
    while i < entries.len()
        invariant
            i <= entries@.len(),
            r.deep_view() == spec_discover(entries.deep_view().subrange(0, i as int)),
        decreases entries@.len() - i,
    {
        let ghost pre = entries.deep_view().subrange(0, i as int);
        let ghost cur = entries.deep_view()[i as int];
        proof {
            assert(entries.deep_view().subrange(0, i + 1 as int).drop_last() =~= pre);
            assert(entries.deep_view().subrange(0, i + 1 as int).last() == cur);
        }
        let entry = &entries[i];
        if entry.is_file && str_contains(entry.path.as_str(), "/disc") {
            let path = entry.path.as_str();
            let len = path.unicode_len();
            let name = match find_last_char(path, '/') {
                Some(slash) => {
                    proof {
                        lemma_after_last_at(path@, '/', slash as int);
                        assert(path@.skip(slash + 1 as int) =~= path@.subrange(
                            slash + 1 as int,
                            path@.len() as int,
                        ));
                    }
                    path.substring_char(slash + 1, len)
                },
                None => {
                    proof {
                        lemma_after_last_absent(path@, '/');
                    }
                    path
                },
            };
            proof {
                assert(name@ == entry_file_name(cur.path));
            }
            let name_len = name.unicode_len();
            match find_last_char(name, '.') {
                Some(dot) => {
                    if dot > 0 {
                        proof {
                            lemma_after_last_at(name@, '.', dot as int);
                            assert(name@.skip(dot + 1 as int) =~= name@.subrange(
                                dot + 1 as int,
                                name@.len() as int,
                            ));
                            assert(entry_has_ext(cur.path));
                        }
                        let ext = name.substring_char(dot + 1, name_len);
                        proof {
                            assert(ext@ == entry_ext(cur.path));
                            assert(is_ripped_candidate(cur));
                        }
                        let record = FileNameAndExt::new(path, name, ext);
                        r.push(record);
                        proof {
                            assert(record.deep_view() == candidate_record(cur));
                            assert(r.deep_view() =~= spec_discover(
                                entries.deep_view().subrange(0, i + 1 as int),
                            ));
                        }
                    } else {
                        proof {
                            assert(forall|k: int| dot < k < name@.len() ==> name@[k] != '.');
                            assert(!entry_has_ext(cur.path));
                            assert(!is_ripped_candidate(cur));
                            assert(r.deep_view() =~= spec_discover(
                                entries.deep_view().subrange(0, i + 1 as int),
                            ));
                        }
                    }
                },
                None => {
                    proof {
                        assert(!entry_has_ext(cur.path));
                        assert(!is_ripped_candidate(cur));
                        assert(r.deep_view() =~= spec_discover(
                            entries.deep_view().subrange(0, i + 1 as int),
                        ));
                    }
                },
            }
        } else {
            proof {
                assert(!is_ripped_candidate(cur));
                assert(r.deep_view() =~= spec_discover(
                    entries.deep_view().subrange(0, i + 1 as int),
                ));
            }
        }
        i = i + 1;
    }
    proof {
        assert(entries.deep_view().subrange(0, entries.deep_view().len() as int)
            =~= entries.deep_view());
    }
    r
}

} // verus!
