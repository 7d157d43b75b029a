//! Rendering a catalog entry into a plan of output-file actions.
//!
//! Rendering recreates the template's relative layout under
//! `<output>/src`: every image asset becomes a byte-for-byte copy,
//! every compiled source that the auxiliary filter does not reject is
//! rendered against the binding context and written, and one generated
//! build-manifest file is written at the output root. The renderer
//! computes the full plan; executing it (creating directories, copying
//! bytes, writing text) is the caller's ordinary I/O.

use vstd::prelude::*;

use crate::classify::{any_contains, aux_patterns, file_filter, lemma_filter_matches};
use crate::compiler::{
    build_context, ctx_insert, ctx_new, source_views, tera_clone, tera_render, tera_render_str,
    tera_template_names, tera_templates,
};
use crate::errors::Error;
use crate::filter::FilterFn;
use crate::paths::{file_name, path_concat, path_join, spec_under_dir, strip_dir_prefix};
use crate::templating::{first_match_at, spec_has_template, Engine, Template};

verus! {

/// One step of materializing a rendered template.
pub enum RenderAction {
    /// Copy the file at `from` byte-for-byte to `to`.
    CopyFile { from: String, to: String },
    /// Write `contents` as the bytes of the file at `path`.
    WriteFile { path: String, contents: String },
}

/// The mathematical shape of a plan step.
pub enum ActionView {
    Copy { from: Seq<char>, to: Seq<char> },
    Write { path: Seq<char>, contents: Seq<char> },
}

impl View for RenderAction {
    type V = ActionView;

    open spec fn view(&self) -> ActionView {
        match self {
            RenderAction::CopyFile { from, to } => ActionView::Copy { from: from@, to: to@ },
            RenderAction::WriteFile { path, contents } => ActionView::Write {
                path: path@,
                contents: contents@,
            },
        }
    }
}

/// The views of a whole plan.
pub open spec fn plan_views(p: Seq<RenderAction>) -> Seq<ActionView> {
    p.map_values(|a: RenderAction| a@)
}

/// The copy steps a template's image assets give rise to, in order:
/// each asset lying under the source directory is copied to its
/// analogous place under `<output>/src`; one that does not lie there
/// is skipped.
pub open spec fn spec_copy_actions(out: Seq<char>, dir: Seq<char>, images: Seq<Seq<char>>) -> Seq<
    ActionView,
>
    decreases images.len(),
{
    if images.len() == 0 {
        Seq::empty()
    } else {
        let rest = spec_copy_actions(out, dir, images.drop_last());
        let img = images.last();
        if spec_under_dir(img, dir) {
            rest.push(
                ActionView::Copy {
                    from: img,
                    to: path_concat(
                        path_concat(out, "src"@),
                        img.subrange(dir.len() as int + 1, img.len() as int),
                    ),
                },
            )
        } else {
            rest
        }
    }
}

/// The write steps for rendered sources: one per (name, text) pair, in
/// order, each at the name's analogous place under `<output>/src` and
/// carrying exactly the rendered text.
pub open spec fn spec_write_actions(out: Seq<char>, outs: Seq<(Seq<char>, Seq<char>)>) -> Seq<
    ActionView,
> {
    outs.map_values(
        |p: (Seq<char>, Seq<char>)|
            ActionView::Write { path: path_concat(path_concat(out, "src"@), p.0), contents: p.1 },
    )
}

/// The whole plan a render lays out: the image copies, then the
/// rendered-source writes, then the generated manifest at the output
/// root, carrying exactly the rendered manifest text.
pub open spec fn spec_plan(
    out: Seq<char>,
    dir: Seq<char>,
    images: Seq<Seq<char>>,
    outs: Seq<(Seq<char>, Seq<char>)>,
    manifest: Seq<char>,
) -> Seq<ActionView> {
    spec_copy_actions(out, dir, images) + spec_write_actions(out, outs) + seq![
        ActionView::Write { path: path_concat(out, "Tectonic.toml"@), contents: manifest },
    ]
}

/// A successful render's plan: for some rendered texts — one per
/// distinct non-auxiliary compiled source the external compiler
/// rendered — the plan is exactly their layout, the image copies
/// first and the manifest last.
pub open spec fn spec_render_ok(views: Seq<ActionView>, t: Template, out: Seq<char>) -> bool {
    exists|outs: Seq<(Seq<char>, Seq<char>)>, manifest: Seq<char>|
        #![trigger spec_plan(out, t.dir@, t.image_files.deep_view(), outs, manifest)]
        {
            &&& views == spec_plan(out, t.dir@, t.image_files.deep_view(), outs, manifest)
            &&& (forall|k: int|
                0 <= k < outs.len() ==> tera_templates(t.tera).contains((#[trigger] outs[k]).0)
                    && !any_contains(aux_patterns(), outs[k].0))
            &&& (forall|a: int, b: int| 0 <= a < b < outs.len() ==> outs[a].0 != outs[b].0)
        }
}

/// The embedded build-manifest fragment: a fixed text resource
/// referencing the single variable `name`.
pub open spec fn spec_manifest_source() -> Seq<char> {
    "[doc]\nname = \"{{ name }}\"\nbundle = \"default\"\n\n[[output]]\nname = \"default\"\ntype = \"pdf\"\n"@
}

/// The embedded build-manifest fragment.
pub fn manifest_template() -> (r: &'static str)
    ensures
        r@ == spec_manifest_source(),
{
    "[doc]\nname = \"{{ name }}\"\nbundle = \"default\"\n\n[[output]]\nname = \"default\"\ntype = \"pdf\"\n"
}

/// Lay out a render's file actions: the image copies in asset order,
/// one write per rendered source in order, and the given manifest text
/// at the output root, last.
pub fn assemble_plan(
    out_dir: &str,
    dir: &str,
    images: &Vec<String>,
    outputs: &Vec<(String, String)>,
    manifest: String,
) -> (r: Vec<RenderAction>)
    ensures
        plan_views(r@) == spec_plan(
            out_dir@,
            dir@,
            images.deep_view(),
            source_views(outputs@),
            manifest@,
        ),
{
    let ghost mview = manifest@;
    let out_src = path_join(out_dir, "src");
    let mut plan: Vec<RenderAction> = Vec::new();
    let mut i: usize = 0;
    while i < images.len()
        invariant
            0 <= i <= images.len(),
            out_src@ == path_concat(out_dir@, "src"@),
            plan_views(plan@) == spec_copy_actions(
                out_dir@,
                dir@,
                images.deep_view().take(i as int),
            ),
        decreases images.len() - i,
    {
        proof {
            assert(images.deep_view().take(i + 1).drop_last() =~= images.deep_view().take(i as int));
            assert(images.deep_view().take(i + 1).last() == images.deep_view()[i as int]);
        }
        match strip_dir_prefix(images[i].as_str(), dir) {
            Some(rel) => {
                let to = path_join(out_src.as_str(), rel.as_str());
                let from = images[i].clone();
                plan.push(RenderAction::CopyFile { from, to });
                proof {
                    assert(plan_views(plan@) =~= spec_copy_actions(
                        out_dir@,
                        dir@,
                        images.deep_view().take(i + 1),
                    ));
                }
            },
            None => {
                proof {
                    assert(plan_views(plan@) =~= spec_copy_actions(
                        out_dir@,
                        dir@,
                        images.deep_view().take(i + 1),
                    ));
                }
            },
        }
        i = i + 1;
    }
    let ghost copies = spec_copy_actions(out_dir@, dir@, images.deep_view());
    proof {
        assert(images.deep_view().take(images.len() as int) =~= images.deep_view());
    }
    let mut j: usize = 0;
    while j < outputs.len()
        invariant
            0 <= j <= outputs.len(),
            out_src@ == path_concat(out_dir@, "src"@),
            copies == spec_copy_actions(out_dir@, dir@, images.deep_view()),
            plan_views(plan@) == copies + spec_write_actions(
                out_dir@,
                source_views(outputs@.take(j as int)),
            ),
        decreases outputs.len() - j,
    {
        proof {
            assert(outputs@.take(j + 1).drop_last() =~= outputs@.take(j as int));
            assert(source_views(outputs@.take(j + 1)) =~= source_views(
                outputs@.take(j as int),
            ).push((outputs@[j as int].0@, outputs@[j as int].1@)));
        }
        let path = path_join(out_src.as_str(), outputs[j].0.as_str());
        let contents = outputs[j].1.clone();
        let ghost pre = plan@;
        let ghost av = (ActionView::Write { path: path@, contents: contents@ });
        plan.push(RenderAction::WriteFile { path, contents });
        proof {
            assert(path@ == path_concat(path_concat(out_dir@, "src"@), outputs@[j as int].0@));
            assert(contents@ == outputs@[j as int].1@);
            assert(plan_views(plan@) =~= plan_views(pre).push(av));
            assert(spec_write_actions(out_dir@, source_views(outputs@.take(j + 1)))
                =~= spec_write_actions(out_dir@, source_views(outputs@.take(j as int))).push(av));
            assert(plan_views(plan@) =~= copies + spec_write_actions(
                out_dir@,
                source_views(outputs@.take(j + 1)),
            ));
        }
        j = j + 1;
    }
    proof {
        assert(outputs@.take(outputs.len() as int) =~= outputs@);
    }
    let mpath = path_join(out_dir, "Tectonic.toml");
    plan.push(RenderAction::WriteFile { path: mpath, contents: manifest });
    proof {
        assert(plan_views(plan@) =~= spec_plan(
            out_dir@,
            dir@,
            images.deep_view(),
            source_views(outputs@),
            mview,
        ));
    }
    plan
}

impl Engine {
    /// Render the named catalog entry against the given bindings into
    /// a plan of file actions rooted at `out_dir`. Fails with
    /// `TemplateNotFound` exactly when the catalog has no entry of
    /// that name, and with `ManifestRenderError` when the generated
    /// manifest fails to render; a single source file that fails to
    /// render is skipped, not fatal.
    pub fn render(&self, out_dir: &str, name: &str, data: &Vec<(String, String)>) -> (r: Result<
        Vec<RenderAction>,
        Error,
    >)
        ensures
            match r {
                Ok(plan) => exists|i: int|
                    #[trigger] first_match_at(self.templates@, name@, i) && spec_render_ok(
                        plan_views(plan@),
                        self.templates@[i],
                        out_dir@,
                    ),
                Err(e) => (e == Error::TemplateNotFound && !spec_has_template(
                    self.templates@,
                    name@,
                )) || (e == Error::ManifestRenderError && spec_has_template(
                    self.templates@,
                    name@,
                )),
            },
    {
        let t = match self.get_template(name) {
            Some(t) => t,
            None => {
                return Err(Error::TemplateNotFound);
            },
        };
        let ghost ti = choose|i: int|
            first_match_at(self.templates@, name@, i) && *t == self.templates@[i];
        let context = build_context(data);
        let names = tera_template_names(&t.tera);
        let auxf = file_filter();
        let mut outputs: Vec<(String, String)> = Vec::new();
        let mut j: usize = 0;
        while j < names.len()
            invariant
                0 <= j <= names.len(),
                auxf.patterns().map_values(|p: String| p@) == aux_patterns(),
                names.deep_view().to_set() == tera_templates(t.tera),
                forall|a: int, b: int|
                    0 <= a < b < names.deep_view().len() ==> names.deep_view()[a]
                        != names.deep_view()[b],
                forall|k: int|
                    0 <= k < outputs@.len() ==> tera_templates(t.tera).contains(
                        (#[trigger] outputs@[k]).0@,
                    ) && !any_contains(aux_patterns(), outputs@[k].0@),
                forall|k: int|
                    0 <= k < outputs@.len() ==> exists|jj: int|
                        0 <= jj < j && (#[trigger] outputs@[k]).0@ == names.deep_view()[jj],
                forall|a: int, b: int|
                    0 <= a < b < outputs@.len() ==> outputs@[a].0@ != outputs@[b].0@,
            decreases names.len() - j,
        {
            proof {
                lemma_filter_matches(auxf, names.deep_view()[j as int]);
                assert(names.deep_view().contains(names.deep_view()[j as int])) by {
                    assert(names.deep_view()[j as int] == names.deep_view()[j as int]);
                }
                assert(tera_templates(t.tera).contains(names.deep_view()[j as int]));
            }
            if !auxf.filter(names[j].as_str()) {
                match tera_render(&t.tera, names[j].as_str(), &context) {
                    Some(contents) => {
                        let ghost pre = outputs@;
                        outputs.push((names[j].clone(), contents));
                        proof {
                            assert((#[trigger] outputs@[pre.len() as int]).0@
                                == names.deep_view()[j as int]);
                            assert forall|k: int| 0 <= k < pre.len() implies (
                            #[trigger] outputs@[k]).0@ != outputs@[pre.len() as int].0@ by {
                                assert(outputs@[k] == pre[k]);
                                let jj = choose|jj: int|
                                    0 <= jj < j && (#[trigger] pre[k]).0@ == names.deep_view()[jj];
                                assert(names.deep_view()[jj] != names.deep_view()[j as int]);
                            }
                        }
                    },
                    None => {},
                }
            }
            j = j + 1;
        }
        let project_name = match file_name(out_dir) {
            Some(b) => b,
            None => String::new(),
        };
        let mut mctx = ctx_new();
        ctx_insert(&mut mctx, "name", &project_name);
        let mut tc = tera_clone(&t.tera);
        let manifest = match tera_render_str(&mut tc, manifest_template(), &mctx) {
            Some(m) => m,
            None => {
                proof {
                    assert(spec_has_template(self.templates@, name@)) by {
                        assert(first_match_at(self.templates@, name@, ti));
                    }
                }
                return Err(Error::ManifestRenderError);
            },
        };
        let ghost mview = manifest@;
        let plan = assemble_plan(out_dir, t.dir.as_str(), &t.image_files, &outputs, manifest);
        proof {
            let outs = source_views(outputs@);
            assert forall|k: int| 0 <= k < outs.len() implies tera_templates(t.tera).contains(
                (#[trigger] outs[k]).0,
            ) && !any_contains(aux_patterns(), outs[k].0) by {
                assert(outs[k].0 == outputs@[k].0@);
            }
            assert forall|a: int, b: int| 0 <= a < b < outs.len() implies outs[a].0
                != outs[b].0 by {
                assert(outs[a].0 == outputs@[a].0@ && outs[b].0 == outputs@[b].0@);
            }
            assert(spec_render_ok(plan_views(plan@), *t, out_dir@));
            assert(first_match_at(self.templates@, name@, ti) && spec_render_ok(
                plan_views(plan@),
                self.templates@[ti],
                out_dir@,
            ));
        }
        Ok(plan)
    }
}

} // verus!
