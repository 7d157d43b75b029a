//! Choosing among loaded template directories.
//!
//! Before the catalog is built, directories whose metadata marks them
//! as ignored are dropped. While a picker is shown, a live filter
//! narrows the displayed directories by their display names.

use vstd::prelude::*;

use crate::filter::{Filter, FilterFn};
use crate::metadata::LoadedTemplateDir;

verus! {

/// The loaded directories that stay in consideration: those not marked
/// as ignored, in order.
pub open spec fn spec_select(ds: Seq<LoadedTemplateDir>) -> Seq<LoadedTemplateDir>
    decreases ds.len(),
{
    if ds.len() == 0 {
        Seq::empty()
    } else {
        let rest = spec_select(ds.drop_last());
        if !ds.last().config.ignore {
            rest.push(ds.last())
        } else {
            rest
        }
    }
}

/// A directory whose metadata sets the ignore flag never appears among
/// the selected directories, so it never contributes a catalog entry.
pub proof fn lemma_ignored_dir_not_selected(ds: Seq<LoadedTemplateDir>, i: int)
    requires
        0 <= i < spec_select(ds).len(),
    ensures
        !spec_select(ds)[i].config.ignore,
    decreases ds.len(),
{
    if ds.len() > 0 {
        let rest = spec_select(ds.drop_last());
        if !ds.last().config.ignore {
            if i < rest.len() {
                lemma_ignored_dir_not_selected(ds.drop_last(), i);
            }
        } else {
            lemma_ignored_dir_not_selected(ds.drop_last(), i);
        }
    }
}

/// Drop every directory marked as ignored, keeping the order.
pub fn select_dirs(dirs: Vec<LoadedTemplateDir>) -> (r: Vec<LoadedTemplateDir>)
    ensures
        r@ == spec_select(dirs@),
{
    let ghost ds0 = dirs@;
    let mut dirs = dirs;
    let mut out: Vec<LoadedTemplateDir> = Vec::new();
    let ghost mut k: int = 0;
    while dirs.len() > 0
        invariant
            0 <= k <= ds0.len(),
            dirs@ == ds0.skip(k),
            out@ == spec_select(ds0.take(k)),
        decreases dirs.len(),
    {
        let d = dirs.remove(0);
        proof {
            assert(d == ds0[k]);
            assert(dirs@ =~= ds0.skip(k + 1));
            assert(ds0.take(k + 1).drop_last() =~= ds0.take(k));
        }
        if !d.config.ignore {
            out.push(d);
        }
        proof {
            assert(out@ =~= spec_select(ds0.take(k + 1)));
            k = k + 1;
        }
    }
    proof {
        assert(ds0.take(ds0.len() as int) =~= ds0);
    }
    out
}

/// The directories a narrowing filter keeps: all of them while the
/// filter holds no patterns, else those whose display name it matches.
pub open spec fn spec_narrow(ds: Seq<LoadedTemplateDir>, f: Filter<String>) -> Seq<
    LoadedTemplateDir,
> {
    if f.patterns().len() == 0 {
        ds
    } else {
        spec_narrow_matching(ds, f)
    }
}

/// The directories whose display name the filter matches, in order.
pub open spec fn spec_narrow_matching(ds: Seq<LoadedTemplateDir>, f: Filter<String>) -> Seq<
    LoadedTemplateDir,
>
    decreases ds.len(),
{
    if ds.len() == 0 {
        Seq::empty()
    } else {
        let rest = spec_narrow_matching(ds.drop_last(), f);
        if f.spec_matches(ds.last().config.name@) {
            rest.push(ds.last())
        } else {
            rest
        }
    }
}

/// Narrow loaded directories by display name with a live filter.
pub fn filter_dirs(dirs: Vec<LoadedTemplateDir>, f: &Filter<String>) -> (r: Vec<
    LoadedTemplateDir,
>)
    ensures
        r@ == spec_narrow(dirs@, *f),
{
    if f.get_filter().len() == 0 {
        return dirs;
    }
    let ghost ds0 = dirs@;
    let mut dirs = dirs;
    let mut out: Vec<LoadedTemplateDir> = Vec::new();
    let ghost mut k: int = 0;
    while dirs.len() > 0
        invariant
            0 <= k <= ds0.len(),
            dirs@ == ds0.skip(k),
            out@ == spec_narrow_matching(ds0.take(k), *f),
        decreases dirs.len(),
    {
        let d = dirs.remove(0);
        proof {
            assert(d == ds0[k]);
            assert(dirs@ =~= ds0.skip(k + 1));
            assert(ds0.take(k + 1).drop_last() =~= ds0.take(k));
        }
        if f.filter(d.config.name.as_str()) {
            out.push(d);
        }
        proof {
            assert(out@ =~= spec_narrow_matching(ds0.take(k + 1), *f));
            k = k + 1;
        }
    }
    proof {
        assert(ds0.take(ds0.len() as int) =~= ds0);
    }
    out
}

/// The rows a picker table shows: one per loaded directory, with its
/// path, display name and description.
pub struct DataSlice<'a>(pub &'a [LoadedTemplateDir]);

impl<'a> DataSlice<'a> {
    /// How many rows the table has.
    pub fn rows(&self) -> (r: usize)
        ensures
            r == self.0@.len(),
    {
        self.0.len()
    }
}

} // verus!
