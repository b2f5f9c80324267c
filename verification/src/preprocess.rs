//! Preparing candidate file lists for the store.
//!
//! The caller expands each command-line argument into its chain of
//! symbolic links (the argument first, the ultimate target last) and
//! notes whether the target is a directory. Here the chains are
//! partitioned: links of chains ending in a directory are rejected
//! with an "is a directory" report before they reach the store; all
//! other links are fingerprinted and processed.

use vstd::prelude::*;

use crate::paths::{FilePath, FilePathV};
use crate::report::{ReportItem, ReportItemV, ReportKind};

verus! {

/// One candidate argument after symlink expansion: the chain of links
/// followed, and whether the ultimate target is a directory.
pub struct PathChain {
    /// The argument itself, each link followed, and the target, in
    /// order.
    pub links: Vec<FilePath>,
    /// True if the ultimate target is a directory.
    pub target_is_dir: bool,
}

/// Mathematical model of a [`PathChain`].
#[verifier::ext_equal]
pub struct PathChainV {
    pub links: Seq<FilePathV>,
    pub target_is_dir: bool,
}

impl PathChain {
    pub open spec fn view(&self) -> PathChainV {
        PathChainV {
            links: self.links@.map_values(|p: FilePath| p@),
            target_is_dir: self.target_is_dir,
        }
    }
}

/// The concatenated links of the chains whose directory flag has the
/// given value, in order.
pub open spec fn selected_links(chains: Seq<PathChainV>, want_dir: bool) -> Seq<FilePathV>
    decreases chains.len(),
{
    if chains.len() == 0 {
        Seq::<FilePathV>::empty()
    } else {
        selected_links(chains.drop_last(), want_dir) + (if chains.last().target_is_dir == want_dir {
            chains.last().links
        } else {
            Seq::<FilePathV>::empty()
        })
    }
}

/// Append a copy of every path in `src` to `dst`.
fn append_duplicates(dst: &mut Vec<FilePath>, src: &Vec<FilePath>)
    ensures
        final(dst)@.map_values(|p: FilePath| p@) == old(dst)@.map_values(|p: FilePath| p@)
            + src@.map_values(|p: FilePath| p@),
{
    let ghost start = dst@;
    let mut j: usize = 0;
    while j < src.len()
        invariant
            j <= src@.len(),
            dst@.map_values(|p: FilePath| p@) == start.map_values(|p: FilePath| p@)
                + src@.map_values(|p: FilePath| p@).take(j as int),
        decreases src@.len() - j,
    {
        let link = src[j].duplicate();
        let ghost linkv = link@;
        let ghost before = dst@;
        dst.push(link);
        proof {
            assert(linkv == src@[j as int]@);
            assert(dst@.map_values(|p: FilePath| p@) =~= before.map_values(
                |p: FilePath| p@,
            ).push(linkv));
            assert(before.map_values(|p: FilePath| p@).push(linkv) =~= start.map_values(
                |p: FilePath| p@,
            ) + src@.map_values(|p: FilePath| p@).take(j as int + 1));
        }
        j = j + 1;
    }
    proof {
        assert(src@.map_values(|p: FilePath| p@).take(src@.len() as int) =~= src@.map_values(
            |p: FilePath| p@,
        ));
    }
}

/// Partition expanded chains into the paths to fingerprint (the links
/// of chains ending in an ordinary file) and the paths to reject (the
/// links of chains ending in a directory).
pub fn preprocess_file_list(chains: &Vec<PathChain>) -> (r: (Vec<FilePath>, Vec<FilePath>))
    ensures
        r.0@.map_values(|p: FilePath| p@) == selected_links(
            chains@.map_values(|c: PathChain| c@),
            false,
        ),
        r.1@.map_values(|p: FilePath| p@) == selected_links(
            chains@.map_values(|c: PathChain| c@),
            true,
        ),
{
    let ghost cviews = chains@.map_values(|c: PathChain| c@);
    let mut files_and_symlinks: Vec<FilePath> = Vec::new();
    let mut directories: Vec<FilePath> = Vec::new();
    let mut i: usize = 0;
    while i < chains.len()
        invariant
            i <= chains@.len(),
            cviews == chains@.map_values(|c: PathChain| c@),
            files_and_symlinks@.map_values(|p: FilePath| p@) == selected_links(
                cviews.take(i as int),
                false,
            ),
            directories@.map_values(|p: FilePath| p@) == selected_links(
                cviews.take(i as int),
                true,
            ),
        decreases chains@.len() - i,
    {
        let chain = &chains[i];
        if chain.target_is_dir {
            append_duplicates(&mut directories, &chain.links);
        } else {
            append_duplicates(&mut files_and_symlinks, &chain.links);
        }
        proof {
            assert(cviews.take(i as int + 1).drop_last() =~= cviews.take(i as int));
            assert(cviews.take(i as int + 1).last() == cviews[i as int]);
            assert(selected_links(cviews.take(i as int + 1), false) == selected_links(
                cviews.take(i as int),
                false,
            ) + (if cviews[i as int].target_is_dir == false {
                cviews[i as int].links
            } else {
                Seq::<FilePathV>::empty()
            }));
            assert(selected_links(cviews.take(i as int + 1), true) == selected_links(
                cviews.take(i as int),
                true,
            ) + (if cviews[i as int].target_is_dir == true {
                cviews[i as int].links
            } else {
                Seq::<FilePathV>::empty()
            }));
            if chain.target_is_dir {
                assert(files_and_symlinks@.map_values(|p: FilePath| p@) =~= selected_links(
                    cviews.take(i as int + 1),
                    false,
                ));
                assert(directories@.map_values(|p: FilePath| p@) =~= selected_links(
                    cviews.take(i as int + 1),
                    true,
                ));
            } else {
                assert(files_and_symlinks@.map_values(|p: FilePath| p@) =~= selected_links(
                    cviews.take(i as int + 1),
                    false,
                ));
                assert(directories@.map_values(|p: FilePath| p@) =~= selected_links(
                    cviews.take(i as int + 1),
                    true,
                ));
            }
        }
        i = i + 1;
    }
    proof {
        assert(cviews.take(cviews.len() as int) =~= cviews);
    }
    (files_and_symlinks, directories)
}

/// Report every directory in the list as "is a directory".
pub fn reject_directories(dirs: &Vec<FilePath>) -> (r: Vec<ReportItem>)
    ensures
        r@.map_values(|it: ReportItem| it@) == dirs@.map_values(
            |p: FilePath| (ReportItemV { kind: ReportKind::IsDirectory, path: p@ }),
        ),
{
    let mut reports: Vec<ReportItem> = Vec::new();
    let mut j: usize = 0;
    while j < dirs.len()
        invariant
            j <= dirs@.len(),
            reports@.map_values(|it: ReportItem| it@) == dirs@.map_values(
                |p: FilePath| (ReportItemV { kind: ReportKind::IsDirectory, path: p@ }),
            ).take(j as int),
        decreases dirs@.len() - j,
    {
        let path = dirs[j].duplicate();
        let item = ReportItem::FileIsDirectory { path };
        let ghost itemv = item@;
        let ghost before = reports@;
        reports.push(item);
        proof {
            assert(itemv == (ReportItemV { kind: ReportKind::IsDirectory, path: dirs@[j as int]@ }));
            assert(reports@.map_values(|it: ReportItem| it@) =~= before.map_values(
                |it: ReportItem| it@,
            ).push(itemv));
            assert(before.map_values(|it: ReportItem| it@).push(itemv) =~= dirs@.map_values(
                |p: FilePath| (ReportItemV { kind: ReportKind::IsDirectory, path: p@ }),
            ).take(j as int + 1));
        }
        j = j + 1;
    }
    proof {
        assert(dirs@.map_values(
            |p: FilePath| (ReportItemV { kind: ReportKind::IsDirectory, path: p@ }),
        ).take(dirs@.len() as int) =~= dirs@.map_values(
            |p: FilePath| (ReportItemV { kind: ReportKind::IsDirectory, path: p@ }),
        ));
    }
    reports
}

} // verus!
