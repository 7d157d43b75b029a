//! Classifying the files found under a template root.
//!
//! Every file is classified by the extension chain of its base name
//! (everything after its first dot, so multi-part byproduct suffixes
//! stay whole), or by its full path for the per-directory override
//! patterns, with first match winning: a configured exclude pattern
//! drops the file; otherwise a configured keep pattern forces it to be
//! a template source; otherwise a built-in image extension makes it a
//! copy-only asset; otherwise a built-in auxiliary extension (a build
//! byproduct) drops it; everything else is a template source. A file
//! with no extension is dropped.

use vstd::prelude::*;
use vstd::string::StringExecFns;

use crate::filter::{Filter, FilterFn};
use crate::metadata::sidecar_file_name;
use crate::paths::{extension, file_name, path_concat, path_join, spec_extension};
use crate::paths::suffix_after_slash;
use crate::text::spec_contains;

verus! {

/// How one file is treated.
#[derive(Clone, Copy, PartialEq, Eq, Structural, Debug)]
pub enum FileClass {
    /// Dropped by an exclude override: never rendered, never copied.
    Excluded,
    /// Compiled and rendered as a template source.
    Source,
    /// Copied byte-for-byte as an image asset.
    Image,
    /// A build byproduct (or extension-less file): dropped.
    Auxiliary,
}

/// Some pattern of the set occurs in the subject.
pub open spec fn any_contains(pats: Seq<Seq<char>>, input: Seq<char>) -> bool {
    exists|i: int| 0 <= i < pats.len() && spec_contains(input, pats[i])
}

/// The built-in auxiliary extensions: build byproducts that are never
/// copied or rendered into output.
pub open spec fn aux_patterns() -> Seq<Seq<char>> {
    seq![
        "aux"@,
        "log"@,
        "out"@,
        "toc"@,
        "fls"@,
        "fdb_latexmk"@,
        "synctex.gz"@,
        "bbl"@,
        "blg"@,
        "run.xml"@,
        "nav"@,
        "snm"@,
        "vrb"@,
        "xdv"@,
        "pdf"@,
        "tmp"@,
        "bak"@,
    ]
}

/// The built-in image extensions: binary assets copied verbatim.
pub open spec fn image_patterns() -> Seq<Seq<char>> {
    seq![
        "png"@,
        "jpg"@,
        "jpeg"@,
        "gif"@,
        "svg"@,
        "bmp"@,
        "webp"@,
        "ico"@,
        "tif"@,
        "tiff"@,
        "eps"@,
        "ps"@,
        "ai"@,
        "raw"@,
        "xcf"@,
        "pdf"@,
    ]
}

/// The pattern views of an optional override filter.
pub open spec fn opt_patterns(f: Option<Filter<String>>) -> Option<Seq<Seq<char>>> {
    match f {
        Some(ft) => Some(ft.patterns().map_values(|p: String| p@)),
        None => None,
    }
}

/// The class of one file, given its full path and the optional override
/// pattern sets. The sidecar metadata file is never part of the
/// output. Overrides match against the full path; the built-in sets
/// match against the base name's extension chain. First match wins,
/// in the order: exclude, keep, image, auxiliary.
pub open spec fn spec_classify(
    full: Seq<char>,
    excl: Option<Seq<Seq<char>>>,
    keep: Option<Seq<Seq<char>>>,
) -> FileClass {
    if suffix_after_slash(full) == "templatex.toml"@ {
        FileClass::Auxiliary
    } else {
        spec_classify_content(full, excl, keep)
    }
}

/// The class of a non-sidecar file.
pub open spec fn spec_classify_content(
    full: Seq<char>,
    excl: Option<Seq<Seq<char>>>,
    keep: Option<Seq<Seq<char>>>,
) -> FileClass {
    match spec_extension(full) {
        None => FileClass::Auxiliary,
        Some(ext) => if (match excl {
            Some(ps) => any_contains(ps, full),
            None => false,
        }) {
            FileClass::Excluded
        } else if (match keep {
            Some(ps) => any_contains(ps, full),
            None => false,
        }) {
            FileClass::Source
        } else if any_contains(image_patterns(), ext) {
            FileClass::Image
        } else if any_contains(aux_patterns(), ext) {
            FileClass::Auxiliary
        } else {
            FileClass::Source
        },
    }
}

/// A string filter matches a subject exactly when some of its pattern
/// views occurs in the subject.
pub(crate) proof fn lemma_filter_matches(f: Filter<String>, input: Seq<char>)
    ensures
        f.spec_matches(input) == any_contains(f.patterns().map_values(|p: String| p@), input),
{
    let ps = f.patterns().map_values(|p: String| p@);
    if f.spec_matches(input) {
        let i = choose|i: int|
            0 <= i < f.patterns().len() && f.patterns()[i].spec_filter(input);
        assert(spec_contains(input, ps[i]));
    }
    if any_contains(ps, input) {
        let i = choose|i: int| 0 <= i < ps.len() && spec_contains(input, ps[i]);
        assert(f.patterns()[i].spec_filter(input));
    }
}

/// The built-in auxiliary filter.
pub fn file_filter() -> (r: Filter<String>)
    ensures
        r.patterns().map_values(|p: String| p@) == aux_patterns(),
{
    let mut v: Vec<String> = Vec::new();
    v.push("aux".to_owned());
    v.push("log".to_owned());
    v.push("out".to_owned());
    v.push("toc".to_owned());
    v.push("fls".to_owned());
    v.push("fdb_latexmk".to_owned());
    v.push("synctex.gz".to_owned());
    v.push("bbl".to_owned());
    v.push("blg".to_owned());
    v.push("run.xml".to_owned());
    v.push("nav".to_owned());
    v.push("snm".to_owned());
    v.push("vrb".to_owned());
    v.push("xdv".to_owned());
    v.push("pdf".to_owned());
    v.push("tmp".to_owned());
    v.push("bak".to_owned());
    let r = Filter::with_filter(v);
    proof {
        assert(r.patterns().map_values(|p: String| p@) =~= aux_patterns());
    }
    r
}

/// The built-in image filter.
pub fn image_filter() -> (r: Filter<String>)
    ensures
        r.patterns().map_values(|p: String| p@) == image_patterns(),
{
    let mut v: Vec<String> = Vec::new();
    v.push("png".to_owned());
    v.push("jpg".to_owned());
    v.push("jpeg".to_owned());
    v.push("gif".to_owned());
    v.push("svg".to_owned());
    v.push("bmp".to_owned());
    v.push("webp".to_owned());
    v.push("ico".to_owned());
    v.push("tif".to_owned());
    v.push("tiff".to_owned());
    v.push("eps".to_owned());
    v.push("ps".to_owned());
    v.push("ai".to_owned());
    v.push("raw".to_owned());
    v.push("xcf".to_owned());
    v.push("pdf".to_owned());
    let r = Filter::with_filter(v);
    proof {
        assert(r.patterns().map_values(|p: String| p@) =~= image_patterns());
    }
    r
}

/// Classify one file by its full path.
pub fn classify_file(
    full: &str,
    exclude: &Option<Filter<String>>,
    keep: &Option<Filter<String>>,
) -> (r: FileClass)
    ensures
        r == spec_classify(full@, opt_patterns(*exclude), opt_patterns(*keep)),
{
    let sc = sidecar_file_name().to_owned();
    match file_name(full) {
        Some(n) => {
            if n.eq(&sc) {
                return FileClass::Auxiliary;
            }
        },
        None => {},
    }
    let ext = match extension(full) {
        Some(e) => e,
        None => {
            return FileClass::Auxiliary;
        },
    };
    if let Some(f) = exclude {
        proof {
            lemma_filter_matches(*f, full@);
        }
        if f.filter(full) {
            return FileClass::Excluded;
        }
    }
    if let Some(f) = keep {
        proof {
            lemma_filter_matches(*f, full@);
        }
        if f.filter(full) {
            return FileClass::Source;
        }
    }
    let img = image_filter();
    proof {
        lemma_filter_matches(img, ext@);
    }
    if img.filter(ext.as_str()) {
        return FileClass::Image;
    }
    let aux = file_filter();
    proof {
        lemma_filter_matches(aux, ext@);
    }
    if aux.filter(ext.as_str()) {
        return FileClass::Auxiliary;
    }
    FileClass::Source
}

/// The relative paths of the files classified as template sources, in
/// the order given.
pub open spec fn spec_sources(
    dir: Seq<char>,
    files: Seq<Seq<char>>,
    excl: Option<Seq<Seq<char>>>,
    keep: Option<Seq<Seq<char>>>,
) -> Seq<Seq<char>>
    decreases files.len(),
{
    if files.len() == 0 {
        Seq::empty()
    } else {
        let rest = spec_sources(dir, files.drop_last(), excl, keep);
        if spec_classify(path_concat(dir, files.last()), excl, keep) == FileClass::Source {
            rest.push(files.last())
        } else {
            rest
        }
    }
}

/// The full paths of the files classified as image assets, in the order
/// given.
pub open spec fn spec_images(
    dir: Seq<char>,
    files: Seq<Seq<char>>,
    excl: Option<Seq<Seq<char>>>,
    keep: Option<Seq<Seq<char>>>,
) -> Seq<Seq<char>>
    decreases files.len(),
{
    if files.len() == 0 {
        Seq::empty()
    } else {
        let rest = spec_images(dir, files.drop_last(), excl, keep);
        if spec_classify(path_concat(dir, files.last()), excl, keep) == FileClass::Image {
            rest.push(path_concat(dir, files.last()))
        } else {
            rest
        }
    }
}

/// The outcome of classifying every file under one root.
pub struct FileClassification {
    /// Template-source files, by path relative to the root.
    pub sources: Vec<String>,
    /// Image assets, by full path under the root.
    pub images: Vec<String>,
}

/// Classify every file under a root directory. `files` holds paths
/// relative to `dir`; override patterns are matched against the joined
/// full paths.
pub fn classify_files(
    dir: &str,
    files: &Vec<String>,
    exclude: &Option<Filter<String>>,
    keep: &Option<Filter<String>>,
) -> (r: FileClassification)
    ensures
        r.sources.deep_view() == spec_sources(
            dir@,
            files.deep_view(),
            opt_patterns(*exclude),
            opt_patterns(*keep),
        ),
        r.images.deep_view() == spec_images(
            dir@,
            files.deep_view(),
            opt_patterns(*exclude),
            opt_patterns(*keep),
        ),
{
    let ghost e = opt_patterns(*exclude);
    let ghost k = opt_patterns(*keep);
    let mut sources: Vec<String> = Vec::new();
    let mut images: Vec<String> = Vec::new();
    let mut i: usize = 0;
    while i < files.len()
        invariant
            0 <= i <= files.len(),
            e == opt_patterns(*exclude),
            k == opt_patterns(*keep),
            sources.deep_view() == spec_sources(dir@, files.deep_view().take(i as int), e, k),
            images.deep_view() == spec_images(dir@, files.deep_view().take(i as int), e, k),
        decreases files.len() - i,
    {
        let full = path_join(dir, files[i].as_str());
        proof {
            assert(files.deep_view().take(i + 1).drop_last() =~= files.deep_view().take(i as int));
            assert(files.deep_view().take(i + 1).last() == files.deep_view()[i as int]);
        }
        match classify_file(full.as_str(), exclude, keep) {
            FileClass::Source => {
                sources.push(files[i].clone());
                proof {
                    assert(sources.deep_view() =~= spec_sources(
                        dir@,
                        files.deep_view().take(i + 1),
                        e,
                        k,
                    ));
                }
            },
            FileClass::Image => {
                images.push(full);
                proof {
                    assert(images.deep_view() =~= spec_images(
                        dir@,
                        files.deep_view().take(i + 1),
                        e,
                        k,
                    ));
                }
            },
            _ => {},
        }
        proof {
            assert(sources.deep_view() =~= spec_sources(dir@, files.deep_view().take(i + 1), e, k));
            assert(images.deep_view() =~= spec_images(dir@, files.deep_view().take(i + 1), e, k));
        }
        i = i + 1;
    }
    proof {
        assert(files.deep_view().take(files.len() as int) =~= files.deep_view());
    }
    FileClassification { sources, images }
}

/// A relative path is among the classified sources exactly when it is
/// one of the given files and its full path classifies as a template
/// source.
pub proof fn lemma_sources_membership(
    dir: Seq<char>,
    files: Seq<Seq<char>>,
    excl: Option<Seq<Seq<char>>>,
    keep: Option<Seq<Seq<char>>>,
    x: Seq<char>,
)
    ensures
        spec_sources(dir, files, excl, keep).contains(x) <==> (exists|i: int|
            0 <= i < files.len() && files[i] == x && spec_classify(path_concat(dir, x), excl, keep)
                == FileClass::Source),
    decreases files.len(),
{
    if files.len() == 0 {
    } else {
        let fd = files.drop_last();
        lemma_sources_membership(dir, fd, excl, keep, x);
        let rest = spec_sources(dir, fd, excl, keep);
        let s = spec_sources(dir, files, excl, keep);
        let pushed = spec_classify(path_concat(dir, files.last()), excl, keep)
            == FileClass::Source;
        if s.contains(x) {
            let k = choose|k: int| 0 <= k < s.len() && s[k] == x;
            if pushed && k == s.len() - 1 {
                assert(files[files.len() - 1] == x);
            } else {
                assert(rest[k] == x);
                assert(rest.contains(x));
                let i = choose|i: int|
                    0 <= i < fd.len() && fd[i] == x && spec_classify(
                        path_concat(dir, x),
                        excl,
                        keep,
                    ) == FileClass::Source;
                assert(files[i] == x);
            }
        }
        if exists|i: int|
            0 <= i < files.len() && files[i] == x && spec_classify(path_concat(dir, x), excl, keep)
                == FileClass::Source {
            let i = choose|i: int|
                0 <= i < files.len() && files[i] == x && spec_classify(
                    path_concat(dir, x),
                    excl,
                    keep,
                ) == FileClass::Source;
            if i == files.len() - 1 {
                assert(files.last() == x);
                assert(s[s.len() - 1] == x);
            } else {
                assert(fd[i] == x);
                assert(rest.contains(x));
                let k = choose|k: int| 0 <= k < rest.len() && rest[k] == x;
                assert(s[k] == x);
            }
            assert(s.contains(x));
        }
    }
}

/// A full path is among the classified image assets exactly when it is
/// the joined path of one of the given files and classifies as an
/// image.
pub proof fn lemma_images_membership(
    dir: Seq<char>,
    files: Seq<Seq<char>>,
    excl: Option<Seq<Seq<char>>>,
    keep: Option<Seq<Seq<char>>>,
    y: Seq<char>,
)
    ensures
        spec_images(dir, files, excl, keep).contains(y) <==> (exists|i: int|
            0 <= i < files.len() && path_concat(dir, files[i]) == y && spec_classify(
                y,
                excl,
                keep,
            ) == FileClass::Image),
    decreases files.len(),
{
    if files.len() == 0 {
    } else {
        let fd = files.drop_last();
        lemma_images_membership(dir, fd, excl, keep, y);
        let rest = spec_images(dir, fd, excl, keep);
        let s = spec_images(dir, files, excl, keep);
        let pushed = spec_classify(path_concat(dir, files.last()), excl, keep) == FileClass::Image;
        if s.contains(y) {
            let k = choose|k: int| 0 <= k < s.len() && s[k] == y;
            if pushed && k == s.len() - 1 {
                assert(path_concat(dir, files[files.len() - 1]) == y);
            } else {
                assert(rest[k] == y);
                assert(rest.contains(y));
                let i = choose|i: int|
                    0 <= i < fd.len() && path_concat(dir, fd[i]) == y && spec_classify(
                        y,
                        excl,
                        keep,
                    ) == FileClass::Image;
                assert(path_concat(dir, files[i]) == y);
            }
        }
        if exists|i: int|
            0 <= i < files.len() && path_concat(dir, files[i]) == y && spec_classify(y, excl, keep)
                == FileClass::Image {
            let i = choose|i: int|
                0 <= i < files.len() && path_concat(dir, files[i]) == y && spec_classify(
                    y,
                    excl,
                    keep,
                ) == FileClass::Image;
            if i == files.len() - 1 {
                assert(s[s.len() - 1] == y);
            } else {
                assert(path_concat(dir, fd[i]) == y);
                assert(rest.contains(y));
                let k = choose|k: int| 0 <= k < rest.len() && rest[k] == y;
                assert(s[k] == y);
            }
            assert(s.contains(y));
        }
    }
}

/// Classification partitions a root's files: a path kept as a template
/// source is never also recorded as an image asset, so an image
/// asset's bytes are only ever copied, never handed to the template
/// compiler.
pub proof fn lemma_source_never_image(
    dir: Seq<char>,
    files: Seq<Seq<char>>,
    excl: Option<Seq<Seq<char>>>,
    keep: Option<Seq<Seq<char>>>,
    rel: Seq<char>,
)
    requires
        spec_sources(dir, files, excl, keep).contains(rel),
    ensures
        !spec_images(dir, files, excl, keep).contains(path_concat(dir, rel)),
{
    lemma_sources_membership(dir, files, excl, keep, rel);
    if spec_images(dir, files, excl, keep).contains(path_concat(dir, rel)) {
        lemma_images_membership(dir, files, excl, keep, path_concat(dir, rel));
        let j = choose|j: int|
            0 <= j < files.len() && path_concat(dir, files[j]) == path_concat(dir, rel)
                && spec_classify(path_concat(dir, rel), excl, keep) == FileClass::Image;
        crate::paths::lemma_path_concat_cancel(dir, files[j], rel);
        assert(false);
    }
}

/// Exclusion wins over everything: a file whose full path an exclude
/// pattern drops is in neither classified list, whatever the keep
/// patterns say.
pub proof fn lemma_excluded_file_absent(
    dir: Seq<char>,
    files: Seq<Seq<char>>,
    excl: Option<Seq<Seq<char>>>,
    keep: Option<Seq<Seq<char>>>,
    x: Seq<char>,
)
    requires
        spec_classify(path_concat(dir, x), excl, keep) == FileClass::Excluded,
    ensures
        !spec_sources(dir, files, excl, keep).contains(x),
        !spec_images(dir, files, excl, keep).contains(path_concat(dir, x)),
{
    lemma_sources_membership(dir, files, excl, keep, x);
    lemma_images_membership(dir, files, excl, keep, path_concat(dir, x));
}

/// A file forced in by the keep override (or ordinarily classified as
/// a source) appears among the template sources and never among the
/// image assets, whatever its extension.
pub proof fn lemma_source_file_kept(
    dir: Seq<char>,
    files: Seq<Seq<char>>,
    excl: Option<Seq<Seq<char>>>,
    keep: Option<Seq<Seq<char>>>,
    i: int,
)
    requires
        0 <= i < files.len(),
        spec_classify(path_concat(dir, files[i]), excl, keep) == FileClass::Source,
    ensures
        spec_sources(dir, files, excl, keep).contains(files[i]),
        !spec_images(dir, files, excl, keep).contains(path_concat(dir, files[i])),
{
    lemma_sources_membership(dir, files, excl, keep, files[i]);
    lemma_source_never_image(dir, files, excl, keep, files[i]);
}

} // verus!
