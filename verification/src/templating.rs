//! The template catalog and its construction.
//!
//! A [`Template`] is one catalog entry: a display name, the source
//! directory it came from, the compiled template-source files with the
//! variables each references, and the image assets to copy verbatim.
//! An [`Engine`] is the whole catalog. The [`EngineBuilder`] assembles
//! an engine from prepared root-directory inputs, compiling every
//! source through the external template compiler and harvesting
//! variable references from its syntax trees.

use vstd::prelude::*;

use crate::classify::{opt_patterns, spec_images, spec_sources, FileClassification};
use crate::classify::classify_files;
use crate::compiler::{
    dedup_first, dedup_strings, harvest_variables, source_names, source_views, sources_map,
    spec_idents, tera_accepts, tera_add_raw_templates, tera_autoescape_tex, tera_contents,
    tera_new, tera_source_idents, tera_template_ast, tera_template_names, tera_templates,
};
use crate::errors::Error;
use crate::filter::Filter;
use crate::paths::{file_name, spec_file_name, spec_under_dir, strip_dir_prefix};

verus! {

/// No value of a string-sequence list appears twice.
pub open spec fn no_dup(s: Seq<Seq<char>>) -> bool {
    forall|i: int, j: int| 0 <= i < j < s.len() ==> s[i] != s[j]
}

/// A template-source file: its path relative to the template root, and
/// the distinct variable names it references, in the order first seen.
pub struct TemplateFile {
    pub path: String,
    pub variables: Vec<String>,
}

impl TemplateFile {
    /// The file's path relative to its template root.
    pub fn path(&self) -> (r: &String)
        ensures
            r == self.path,
    {
        &self.path
    }

    /// The distinct variable names the file references.
    pub fn variables(&self) -> (r: &Vec<String>)
        ensures
            r == self.variables,
    {
        &self.variables
    }
}

/// One catalog entry: a compiled template directory.
pub struct Template {
    /// The compiler instance holding every compiled source of this
    /// template, inheritance resolved.
    pub tera: tera::Tera,
    /// The display name the catalog lists the template under.
    pub name: String,
    /// The source directory the template was built from.
    pub dir: String,
    /// The render targets.
    pub files: Vec<TemplateFile>,
    /// The copy targets, by full path under the source directory.
    pub image_files: Vec<String>,
}

/// The relative paths of a template's render targets.
pub open spec fn file_paths(fs: Seq<TemplateFile>) -> Seq<Seq<char>> {
    fs.map_values(|f: TemplateFile| f.path@)
}

impl Template {
    /// The display name.
    pub fn name(&self) -> (r: &String)
        ensures
            r == self.name,
    {
        &self.name
    }

    /// The source directory.
    pub fn dir(&self) -> (r: &String)
        ensures
            r == self.dir,
    {
        &self.dir
    }

    /// The render targets.
    pub fn files(&self) -> (r: &Vec<TemplateFile>)
        ensures
            r == self.files,
    {
        &self.files
    }

    /// The copy targets.
    pub fn image_files(&self) -> (r: &Vec<String>)
        ensures
            r == self.image_files,
    {
        &self.image_files
    }
}

/// Everything the builder needs of one template root directory: its
/// path, the display name its metadata assigns (if any), the text of
/// every file classified as a template source, keyed by path relative
/// to the root, and the full paths of its image assets.
pub struct RootInput {
    pub dir: String,
    pub name_override: Option<String>,
    pub sources: Vec<(String, String)>,
    pub images: Vec<String>,
}

/// The given image paths that lie under the root directory, in order.
pub open spec fn under_dir_images(dir: Seq<char>, images: Seq<Seq<char>>) -> Seq<Seq<char>>
    decreases images.len(),
{
    if images.len() == 0 {
        Seq::empty()
    } else {
        let rest = under_dir_images(dir, images.drop_last());
        if spec_under_dir(images.last(), dir) {
            rest.push(images.last())
        } else {
            rest
        }
    }
}

/// Every kept image path lies under the directory.
proof fn lemma_under_dir_images(dir: Seq<char>, images: Seq<Seq<char>>, i: int)
    requires
        0 <= i < under_dir_images(dir, images).len(),
    ensures
        spec_under_dir(under_dir_images(dir, images)[i], dir),
    decreases images.len(),
{
    if images.len() > 0 {
        let rest = under_dir_images(dir, images.drop_last());
        if spec_under_dir(images.last(), dir) {
            if i < rest.len() {
                lemma_under_dir_images(dir, images.drop_last(), i);
            }
        } else {
            lemma_under_dir_images(dir, images.drop_last(), i);
        }
    }
}

/// The template a successful per-root build yields: named by the
/// override or the root's base name; its compiler and its render
/// targets hold exactly the given sources, each render target's
/// variable list free of repetitions; its copy targets are the given
/// images, every one contained in the source directory.
pub open spec fn template_from_root(t: Template, root: RootInput) -> bool {
    &&& t.dir@ == root.dir@
    &&& (match root.name_override {
        Some(n) => t.name@ == n@,
        None => spec_file_name(root.dir@) == Some(t.name@),
    })
    &&& t.image_files.deep_view() == under_dir_images(root.dir@, root.images.deep_view())
    &&& (forall|i: int|
        0 <= i < t.image_files.deep_view().len() ==> spec_under_dir(
            #[trigger] t.image_files.deep_view()[i],
            t.dir@,
        ))
    &&& tera_contents(t.tera) == sources_map(root.sources@)
    &&& file_paths(t.files@).to_set() == source_names(root.sources@)
    &&& no_dup(file_paths(t.files@))
    &&& (forall|i: int|
        0 <= i < t.files@.len() ==> (#[trigger] t.files@[i]).variables.deep_view() == dedup_first(
            tera_source_idents(tera_contents(t.tera)[t.files@[i].path@]),
        ))
    &&& (forall|i: int| 0 <= i < t.files@.len() ==> no_dup(t.files@[i].variables.deep_view()))
}

/// Deduplication leaves no repetitions, and keeps exactly the values
/// that were present.
proof fn lemma_dedup_first(s: Seq<Seq<char>>)
    ensures
        no_dup(dedup_first(s)),
        forall|x: Seq<char>| dedup_first(s).contains(x) == s.contains(x),
    decreases s.len(),
{
    if s.len() == 0 {
    } else {
        lemma_dedup_first(s.drop_last());
        let rest = dedup_first(s.drop_last());
        assert forall|x: Seq<char>| dedup_first(s).contains(x) == s.contains(x) by {
            if s.contains(x) {
                let i = choose|i: int| 0 <= i < s.len() && s[i] == x;
                if i < s.len() - 1 {
                    assert(s.drop_last()[i] == x);
                    assert(s.drop_last().contains(x));
                    if !rest.contains(s.last()) {
                        assert(dedup_first(s) == rest.push(s.last()));
                        let k = choose|k: int| 0 <= k < rest.len() && rest[k] == x;
                        assert(dedup_first(s)[k] == x);
                    }
                } else {
                    assert(s.last() == x);
                    if rest.contains(x) {
                    } else {
                        assert(dedup_first(s).last() == x);
                    }
                }
            }
            if dedup_first(s).contains(x) {
                let k = choose|k: int| 0 <= k < dedup_first(s).len() && dedup_first(s)[k] == x;
                if rest.contains(x) || (!rest.contains(s.last()) && x != s.last()) {
                    assert(rest.contains(x));
                    assert(s.drop_last().contains(x));
                    let i = choose|i: int| 0 <= i < s.drop_last().len() && s.drop_last()[i] == x;
                    assert(s[i] == x);
                } else {
                    assert(s.contains(x)) by {
                        assert(s[s.len() - 1] == s.last());
                    }
                }
            }
        }
    }
}

/// Build one catalog entry from a prepared root. Fails with
/// `InvalidFilename` exactly when no name is given and the root
/// directory has no base name; otherwise it succeeds exactly when the
/// external compiler accepts the sources, and fails with
/// `CompilationError` when it rejects one of them or their
/// inheritance chain. An image path recorded outside the root
/// directory is dropped, keeping every catalog path within it.
pub fn build_template(root: RootInput) -> (r: Result<Template, Error>)
    ensures
        match r {
            Ok(t) => template_from_root(t, root),
            Err(e) => e == Error::InvalidFilename || e == Error::CompilationError,
        },
        (r == Err::<Template, Error>(Error::InvalidFilename)) <==> (root.name_override is None
            && spec_file_name(root.dir@) is None),
        (root.name_override is Some || spec_file_name(root.dir@) is Some) ==> (r is Ok
            <==> tera_accepts(source_views(root.sources@))),
{
    let name = match &root.name_override {
        Some(n) => n.clone(),
        None => match file_name(root.dir.as_str()) {
            Some(b) => b,
            None => {
                return Err(Error::InvalidFilename);
            },
        },
    };
    let mut tera = tera_new();
    if !tera_add_raw_templates(&mut tera, &root.sources) {
        return Err(Error::CompilationError);
    }
    proof {
        assert(tera_contents(tera) =~= sources_map(root.sources@));
    }
    tera_autoescape_tex(&mut tera);
    let names = tera_template_names(&tera);
    let mut files: Vec<TemplateFile> = Vec::new();
    let mut i: usize = 0;
    while i < names.len()
        invariant
            0 <= i <= names.len(),
            tera_contents(tera) == sources_map(root.sources@),
            names.deep_view().to_set() == tera_templates(tera),
            forall|a: int, b: int|
                0 <= a < b < names.deep_view().len() ==> names.deep_view()[a]
                    != names.deep_view()[b],
            files@.len() == i,
            forall|k: int| 0 <= k < i ==> file_paths(files@)[k] == names.deep_view()[k],
            forall|k: int|
                0 <= k < i ==> (#[trigger] files@[k]).variables.deep_view() == dedup_first(
                    tera_source_idents(tera_contents(tera)[files@[k].path@]),
                ),
            forall|k: int| 0 <= k < i ==> no_dup(files@[k].variables.deep_view()),
        decreases names.len() - i,
    {
        proof {
            assert(names.deep_view().contains(names.deep_view()[i as int])) by {
                assert(names.deep_view()[i as int] == names.deep_view()[i as int]);
            }
            assert(tera_templates(tera).contains(names.deep_view()[i as int]));
        }
        let ast = match tera_template_ast(&tera, names[i].as_str()) {
            Some(a) => a,
            None => {
                proof {
                    assert(false);
                }
                return Err(Error::CompilationError);
            },
        };
        let variables = harvest_variables(&ast);
        proof {
            lemma_dedup_first(spec_idents(ast@));
        }
        files.push(TemplateFile { path: names[i].clone(), variables });
        i = i + 1;
    }
    let mut image_files: Vec<String> = Vec::new();
    let mut gi: usize = 0;
    while gi < root.images.len()
        invariant
            0 <= gi <= root.images.len(),
            image_files.deep_view() == under_dir_images(
                root.dir@,
                root.images.deep_view().take(gi as int),
            ),
        decreases root.images.len() - gi,
    {
        proof {
            assert(root.images.deep_view().take(gi + 1).drop_last() =~= root.images.deep_view().take(
                gi as int,
            ));
            assert(root.images.deep_view().take(gi + 1).last() == root.images.deep_view()[gi as int]);
        }
        if strip_dir_prefix(root.images[gi].as_str(), root.dir.as_str()).is_some() {
            image_files.push(root.images[gi].clone());
        }
        proof {
            assert(image_files.deep_view() =~= under_dir_images(
                root.dir@,
                root.images.deep_view().take(gi + 1),
            ));
        }
        gi = gi + 1;
    }
    proof {
        assert(root.images.deep_view().take(root.images.len() as int) =~= root.images.deep_view());
    }
    let t = Template { tera, name, dir: root.dir, files, image_files };
    proof {
        assert(file_paths(t.files@) =~= names.deep_view());
        assert(file_paths(t.files@).to_set() =~= names.deep_view().to_set());
        assert forall|i: int|
            0 <= i < t.image_files.deep_view().len() implies spec_under_dir(
            #[trigger] t.image_files.deep_view()[i],
            t.dir@,
        ) by {
            lemma_under_dir_images(t.dir@, root.images.deep_view(), i);
        }
    }
    Ok(t)
}

/// The root paths of a prepared input list.
pub open spec fn dirs_of(rs: Seq<RootInput>) -> Seq<Seq<char>> {
    rs.map_values(|r: RootInput| r.dir@)
}

/// A root that holds at least one usable file.
pub open spec fn usable_root(root: RootInput) -> bool {
    root.sources@.len() > 0 || root.images@.len() > 0
}

/// A root that yields a catalog entry: it has usable files, its name
/// resolves, and the compiler accepts its sources.
pub open spec fn root_builds(root: RootInput) -> bool {
    &&& usable_root(root)
    &&& (root.name_override is Some || spec_file_name(root.dir@) is Some)
    &&& tera_accepts(source_views(root.sources@))
}

/// The roots that yield catalog entries, in order.
pub open spec fn building_roots(rs: Seq<RootInput>) -> Seq<RootInput>
    decreases rs.len(),
{
    if rs.len() == 0 {
        Seq::empty()
    } else {
        let rest = building_roots(rs.drop_last());
        if root_builds(rs.last()) {
            rest.push(rs.last())
        } else {
            rest
        }
    }
}

/// Assembles an [`Engine`] from prepared template roots and optional
/// override filters.
pub struct EngineBuilder {
    template_dirs: Option<Vec<RootInput>>,
    exclude_filters: Option<Filter<String>>,
    keep_filters: Option<Filter<String>>,
}

impl EngineBuilder {
    /// The prepared roots, if any were given yet.
    pub closed spec fn spec_template_dirs(&self) -> Option<Seq<RootInput>> {
        match self.template_dirs {
            Some(ds) => Some(ds@),
            None => None,
        }
    }

    /// The configured exclude override.
    pub closed spec fn spec_exclude_filters(&self) -> Option<Filter<String>> {
        self.exclude_filters
    }

    /// The configured keep override.
    pub closed spec fn spec_keep_filters(&self) -> Option<Filter<String>> {
        self.keep_filters
    }

    /// A builder with nothing configured.
    pub fn new() -> (r: EngineBuilder)
        ensures
            r.spec_template_dirs() is None,
            r.spec_exclude_filters() is None,
            r.spec_keep_filters() is None,
    {
        EngineBuilder { template_dirs: None, exclude_filters: None, keep_filters: None }
    }

    /// Set the prepared template roots.
    pub fn template_dirs(self, dirs: Vec<RootInput>) -> (r: EngineBuilder)
        ensures
            r.spec_template_dirs() == Some(dirs@),
            r.spec_exclude_filters() == self.spec_exclude_filters(),
            r.spec_keep_filters() == self.spec_keep_filters(),
    {
        EngineBuilder { template_dirs: Some(dirs), ..self }
    }

    /// Set the exclude override patterns.
    pub fn exclude_filters(self, f: Option<Filter<String>>) -> (r: EngineBuilder)
        ensures
            r.spec_template_dirs() == self.spec_template_dirs(),
            r.spec_exclude_filters() == f,
            r.spec_keep_filters() == self.spec_keep_filters(),
    {
        EngineBuilder { exclude_filters: f, ..self }
    }

    /// Set the keep override patterns.
    pub fn keep_filters(self, f: Option<Filter<String>>) -> (r: EngineBuilder)
        ensures
            r.spec_template_dirs() == self.spec_template_dirs(),
            r.spec_exclude_filters() == self.spec_exclude_filters(),
            r.spec_keep_filters() == f,
    {
        EngineBuilder { keep_filters: f, ..self }
    }

    /// Classify the files found under one root with this builder's
    /// override filters: which relative paths are template sources to
    /// read and compile, and which full paths are image assets to copy.
    pub fn classify(&self, dir: &str, files: &Vec<String>) -> (r: FileClassification)
        ensures
            r.sources.deep_view() == spec_sources(
                dir@,
                files.deep_view(),
                opt_patterns(self.spec_exclude_filters()),
                opt_patterns(self.spec_keep_filters()),
            ),
            r.images.deep_view() == spec_images(
                dir@,
                files.deep_view(),
                opt_patterns(self.spec_exclude_filters()),
                opt_patterns(self.spec_keep_filters()),
            ),
    {
        classify_files(dir, files, &self.exclude_filters, &self.keep_filters)
    }

    /// Build the catalog. Fails exactly when no roots were given.
    /// Exactly the roots with usable files, a resolvable name, and
    /// sources the compiler accepts yield a catalog entry, one each,
    /// in order; every other root is absent while the rest still
    /// build.
    pub fn build(self) -> (r: Result<Engine, Error>)
        ensures
            match r {
                Ok(e) => {
                    &&& (match self.spec_template_dirs() {
                        Some(ds) => {
                            &&& ds.len() > 0
                            &&& e.template_dirs.deep_view() == dirs_of(ds)
                            &&& e.templates@.len() == building_roots(ds).len()
                            &&& (forall|i: int|
                                0 <= i < e.templates@.len() ==> template_from_root(
                                    #[trigger] e.templates@[i],
                                    building_roots(ds)[i],
                                ))
                        },
                        None => false,
                    })
                    &&& e.exclude_filters is None
                    &&& e.keep_filters is None
                },
                Err(er) => er == Error::NoTemplateDirs && (match self.spec_template_dirs() {
                    Some(ds) => ds.len() == 0,
                    None => true,
                }),
            },
{
        let mut ds = match self.template_dirs {
            Some(d) => d,
            None => {
                return Err(Error::NoTemplateDirs);
            },
        };
        if ds.len() == 0 {
            return Err(Error::NoTemplateDirs);
        }
        let ghost ds0 = ds@;
        let mut template_dirs: Vec<String> = Vec::new();
        let mut templates: Vec<Template> = Vec::new();
        while ds.len() > 0
            invariant
                ds@ == ds0.skip(template_dirs@.len() as int),
                template_dirs@.len() <= ds0.len(),
                template_dirs.deep_view() == dirs_of(ds0.take(template_dirs@.len() as int)),
                templates@.len() == building_roots(ds0.take(template_dirs@.len() as int)).len(),
                forall|i: int|
                    0 <= i < templates@.len() ==> template_from_root(
                        #[trigger] templates@[i],
                        building_roots(ds0.take(template_dirs@.len() as int))[i],
                    ),
            decreases ds.len(),
        {
            let ghost k = template_dirs@.len() as int;
            let root = ds.remove(0);
            proof {
                assert(root == ds0[k]);
                assert(ds@ =~= ds0.skip(k + 1));
            }
            let ghost built_pre = building_roots(ds0.take(k));
            let ghost pre = templates@;
            let usable = root.sources.len() > 0 || root.images.len() > 0;
            template_dirs.push(root.dir.clone());
            proof {
                assert(ds0.take(k + 1).drop_last() =~= ds0.take(k));
                assert(dirs_of(ds0.take(k + 1)) =~= dirs_of(ds0.take(k)).push(ds0[k].dir@));
                assert(template_dirs.deep_view() =~= dirs_of(ds0.take(k + 1)));
            }
            if usable {
                match build_template(root) {
                    Ok(t) => {
                        proof {
                            assert(template_from_root(t, ds0[k]));
                            assert(root_builds(ds0[k]));
                            assert(building_roots(ds0.take(k + 1)) == built_pre.push(ds0[k]));
                        }
                        templates.push(t);
                        proof {
                            assert forall|i: int|
                                0 <= i < templates@.len() implies template_from_root(
                                #[trigger] templates@[i],
                                building_roots(ds0.take(k + 1))[i],
                            ) by {
                                if i < pre.len() {
                                    assert(templates@[i] == pre[i]);
                                    assert(building_roots(ds0.take(k + 1))[i] == built_pre[i]);
                                } else {
                                    assert(templates@[i] == t);
                                    assert(building_roots(ds0.take(k + 1))[i] == ds0[k]);
                                }
                            }
                        }
                    },
                    Err(_) => {
                        proof {
                            assert(!root_builds(ds0[k]));
                            assert(building_roots(ds0.take(k + 1)) == built_pre);
                        }
                    },
                }
            } else {
                proof {
                    assert(!root_builds(ds0[k]));
                    assert(building_roots(ds0.take(k + 1)) == built_pre);
                }
            }
        }
        proof {
            assert(template_dirs@.len() == ds0.len());
            assert(ds0.take(ds0.len() as int) =~= ds0);
        }
        Ok(Engine { template_dirs, templates, exclude_filters: None, keep_filters: None })
    }
}

impl Default for EngineBuilder {
    /// The same empty builder [`EngineBuilder::new`] yields.
    fn default() -> (r: EngineBuilder)
        ensures
            r.spec_template_dirs() is None,
            r.spec_exclude_filters() is None,
            r.spec_keep_filters() is None,
    {
        EngineBuilder::new()
    }
}

/// The first catalog entry carrying the name stands at this position.
pub open spec fn first_match_at(ts: Seq<Template>, n: Seq<char>, i: int) -> bool {
    &&& 0 <= i < ts.len()
    &&& ts[i].name@ == n
    &&& (forall|j: int| 0 <= j < i ==> ts[j].name@ != n)
}

/// Some catalog entry carries the name.
pub open spec fn spec_has_template(ts: Seq<Template>, n: Seq<char>) -> bool {
    exists|i: int| 0 <= i < ts.len() && ts[i].name@ == n
}

/// The full catalog: the roots it was built from and the templates
/// that compiled.
pub struct Engine {
    pub template_dirs: Vec<String>,
    pub templates: Vec<Template>,
    pub exclude_filters: Option<Filter<String>>,
    pub keep_filters: Option<Filter<String>>,
}

impl Engine {
    /// A catalog assembled directly from parts.
    pub fn from_values(template_dirs: Vec<String>, templates: Vec<Template>) -> (r: Self)
        ensures
            r.template_dirs == template_dirs,
            r.templates == templates,
            r.exclude_filters is None,
            r.keep_filters is None,
    {
        Engine { template_dirs, templates, exclude_filters: None, keep_filters: None }
    }

    /// The first catalog entry of the given name, if any.
    pub fn get_template(&self, name: &str) -> (r: Option<&Template>)
        ensures
            match r {
                Some(t) => exists|i: int|
                    first_match_at(self.templates@, name@, i) && *t == self.templates@[i],
                None => !spec_has_template(self.templates@, name@),
            },
    {
        let name_s = name.to_owned();
        let mut i: usize = 0;
        while i < self.templates.len()
            invariant
                0 <= i <= self.templates.len(),
                name_s@ == name@,
                forall|j: int| 0 <= j < i ==> self.templates@[j].name@ != name@,
            decreases self.templates.len() - i,
        {
            if self.templates[i].name.eq(&name_s) {
                proof {
                    assert(first_match_at(self.templates@, name@, i as int));
                }
                return Some(&self.templates[i]);
            }
            i = i + 1;
        }
        proof {
            assert(!spec_has_template(self.templates@, name@));
        }
        None
    }
}

/// Every variable name referenced across a template's files, in file
/// order, repetitions kept.
pub open spec fn spec_all_variables(fs: Seq<TemplateFile>) -> Seq<Seq<char>>
    decreases fs.len(),
{
    if fs.len() == 0 {
        Seq::empty()
    } else {
        spec_all_variables(fs.drop_last()) + fs.last().variables.deep_view()
    }
}

/// The de-duplicated union of every file's variable names, in the
/// order first seen: what the value-collection prompt asks the user
/// for, exactly one entry per name however often it is referenced.
pub fn collect_variables(t: &Template) -> (r: Vec<String>)
    ensures
        r.deep_view() == dedup_first(spec_all_variables(t.files@)),
        no_dup(r.deep_view()),
{
    let mut all: Vec<String> = Vec::new();
    let mut i: usize = 0;
    while i < t.files.len()
        invariant
            0 <= i <= t.files.len(),
            all.deep_view() == spec_all_variables(t.files@.take(i as int)),
        decreases t.files.len() - i,
    {
        proof {
            assert(t.files@.take(i + 1).drop_last() =~= t.files@.take(i as int));
            assert(t.files@.take(i + 1).last() == t.files@[i as int]);
        }
        let vars = &t.files[i].variables;
        let ghost base = all.deep_view();
        let mut j: usize = 0;
        while j < vars.len()
            invariant
                0 <= j <= vars.len(),
                i < t.files@.len(),
                vars == t.files@[i as int].variables,
                all.deep_view() == base + vars.deep_view().take(j as int),
            decreases vars.len() - j,
        {
            all.push(vars[j].clone());
            proof {
                assert(vars.deep_view().take(j + 1) =~= vars.deep_view().take(j as int).push(
                    vars.deep_view()[j as int],
                ));
                assert(all.deep_view() =~= (base + vars.deep_view().take(j as int)).push(
                    vars.deep_view()[j as int],
                ));
                assert(all.deep_view() =~= base + vars.deep_view().take(j + 1));
            }
            j = j + 1;
        }
        proof {
            assert(vars.deep_view().take(vars.len() as int) =~= vars.deep_view());
            assert(all.deep_view() =~= spec_all_variables(t.files@.take(i + 1)));
        }
        i = i + 1;
    }
    proof {
        assert(t.files@.take(t.files.len() as int) =~= t.files@);
        lemma_dedup_first(spec_all_variables(t.files@));
    }
    dedup_strings(&all)
}

} // verus!
