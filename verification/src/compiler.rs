//! The boundary to the external template compiler.
//!
//! The tera crate compiles named template sources, resolves their
//! inheritance chains, exposes their syntax trees, and renders a
//! compiled unit against a key/value context. This module declares those
//! capabilities as trusted items and builds the crate's verified pieces
//! on top of them: harvesting the distinct variable names a compiled
//! file references, and building a rendering context from bindings.

use vstd::prelude::*;

verus! {

#[verifier::external_type_specification]
#[verifier::external_body]
pub struct ExTera(tera::Tera);

#[verifier::external_type_specification]
#[verifier::external_body]
pub struct ExTeraContext(tera::Context);

#[verifier::external_type_specification]
#[verifier::external_body]
pub struct ExTeraAstNode(tera::ast::Node);

/// The source texts a compiler instance holds, keyed by template name.
pub uninterp spec fn tera_contents(t: tera::Tera) -> Map<Seq<char>, Seq<char>>;

/// The names of the templates a compiler instance holds.
pub open spec fn tera_templates(t: tera::Tera) -> Set<Seq<char>> {
    tera_contents(t).dom()
}

/// An instance holding no sources at all.
pub open spec fn empty_contents() -> Map<Seq<char>, Seq<char>> {
    Map::empty()
}

/// The identifiers of the variable blocks of a compiled source text,
/// in syntax order. Compiling is deterministic, so they are a function
/// of the text alone.
pub uninterp spec fn tera_source_idents(content: Seq<char>) -> Seq<Seq<char>>;

/// The key/value pairs a rendering context holds.
pub uninterp spec fn context_data(c: tera::Context) -> Map<Seq<char>, Seq<char>>;

/// The variable name a syntax node references, when the node is a
/// variable block over a plain identifier.
pub uninterp spec fn node_ident(n: tera::ast::Node) -> Option<Seq<char>>;

/// The map a source list loads: each text under its name, later
/// entries for the same name overriding earlier ones.
pub open spec fn sources_map(ss: Seq<(String, String)>) -> Map<Seq<char>, Seq<char>>
    decreases ss.len(),
{
    if ss.len() == 0 {
        Map::empty()
    } else {
        sources_map(ss.drop_last()).insert(ss.last().0@, ss.last().1@)
    }
}

/// The names of the added template sources.
pub open spec fn source_names(ss: Seq<(String, String)>) -> Set<Seq<char>> {
    sources_map(ss).dom()
}

/// The (name, text) views of a source list.
pub open spec fn source_views(ss: Seq<(String, String)>) -> Seq<(Seq<char>, Seq<char>)> {
    ss.map_values(|p: (String, String)| (p.0@, p.1@))
}

/// Whether the compiler accepts a source list loaded into a fresh
/// instance: every file parses, the inheritance chains among them
/// resolve, and their macro references are satisfied. Compilation is a
/// deterministic function of the given names and texts.
pub uninterp spec fn tera_accepts(sources: Seq<(Seq<char>, Seq<char>)>) -> bool;

/// Relies on tera::Tera::default: a fresh compiler instance holds no
/// templates.
#[verifier::external_body]
pub(crate) fn tera_new() -> (r: tera::Tera)
    ensures
        tera_contents(r) == empty_contents(),
{
    tera::Tera::default()
}

/// Relies on tera::Tera::add_raw_templates: on success every given
/// source is compiled and registered under its name, with the
/// inheritance chains among them resolved; on failure the instance is
/// in no particular state and is to be discarded. On a fresh instance
/// the outcome is decided by the sources alone.
#[verifier::external_body]
pub(crate) fn tera_add_raw_templates(t: &mut tera::Tera, sources: &Vec<(String, String)>) -> (r:
    bool)
    ensures
        r ==> tera_contents(*final(t)) == tera_contents(*old(t)).union_prefer_right(
            sources_map(sources@),
        ),
        tera_templates(*old(t)) == Set::<Seq<char>>::empty() ==> r == tera_accepts(
            source_views(sources@),
        ),
{
    t.add_raw_templates(sources.iter().map(|(n, c)| (n.as_str(), c.as_str()))).is_ok()
}

/// Relies on tera::Tera::autoescape_on: configures which file suffixes
/// are escaped when rendered; the held sources are untouched.
#[verifier::external_body]
pub(crate) fn tera_autoescape_tex(t: &mut tera::Tera)
    ensures
        tera_contents(*final(t)) == tera_contents(*old(t)),
{
    t.autoescape_on(vec![".tex"]);
}

/// Relies on tera::Tera::get_template_names: every held template name,
/// each exactly once, in no promised order.
#[verifier::external_body]
pub(crate) fn tera_template_names(t: &tera::Tera) -> (r: Vec<String>)
    ensures
        r.deep_view().to_set() == tera_templates(*t),
        forall|i: int, j: int|
            0 <= i < j < r.deep_view().len() ==> r.deep_view()[i] != r.deep_view()[j],
{
    t.get_template_names().map(|s| s.to_owned()).collect()
}

/// Relies on tera::Tera::get_template: the syntax tree of a held
/// template, whose variable-block identifiers are those of the source
/// text it was compiled from; nothing for an unknown name.
#[verifier::external_body]
pub(crate) fn tera_template_ast(t: &tera::Tera, name: &str) -> (r: Option<Vec<tera::ast::Node>>)
    ensures
        r is Some <==> tera_templates(*t).contains(name@),
        r matches Some(a) ==> spec_idents(a@) == tera_source_idents(tera_contents(*t)[name@]),
{
    match t.get_template(name) {
        Ok(tpl) => Some(tpl.ast.clone()),
        Err(_) => None,
    }
}

/// Relies on tera::ast::Node: a variable block over a plain identifier
/// carries that identifier; every other node shape carries none.
#[verifier::external_body]
pub(crate) fn node_variable_ident(n: &tera::ast::Node) -> (r: Option<String>)
    ensures
        match r {
            Some(s) => node_ident(*n) == Some(s@),
            None => node_ident(*n) is None,
        },
{
    match n {
        tera::ast::Node::VariableBlock(_, expr) => match &expr.val {
            tera::ast::ExprVal::Ident(s) => Some(s.clone()),
            _ => None,
        },
        _ => None,
    }
}

/// A context with no bindings at all.
pub open spec fn empty_context_data() -> Map<Seq<char>, Seq<char>> {
    Map::empty()
}

/// Relies on tera::Context::new: a fresh context holds no bindings.
#[verifier::external_body]
pub(crate) fn ctx_new() -> (r: tera::Context)
    ensures
        context_data(r) == empty_context_data(),
{
    tera::Context::new()
}

/// Relies on tera::Context::insert: binds the key to the value,
/// replacing any earlier binding of the same key.
#[verifier::external_body]
pub(crate) fn ctx_insert(c: &mut tera::Context, k: &str, v: &String)
    ensures
        context_data(*final(c)) == context_data(*old(c)).insert(k@, v@),
{
    c.insert(k, v);
}

/// Relies on tera::Tera::render: renders a held template against a
/// context; an unknown name always fails, and a per-file expression
/// error may fail too.
#[verifier::external_body]
pub(crate) fn tera_render(t: &tera::Tera, name: &str, c: &tera::Context) -> (r: Option<String>)
    ensures
        !tera_templates(*t).contains(name@) ==> r is None,
{
    t.render(name, c).ok()
}

/// Relies on tera::Tera::clone: the copy holds the same sources.
#[verifier::external_body]
pub(crate) fn tera_clone(t: &tera::Tera) -> (r: tera::Tera)
    ensures
        tera_contents(r) == tera_contents(*t),
{
    t.clone()
}

/// Relies on tera::Tera::render_str: renders one-off template text
/// against a context through a scratch entry named `__tera_one_off`,
/// which the call takes out again; on success the held template set is
/// the old one without that scratch name.
#[verifier::external_body]
pub(crate) fn tera_render_str(t: &mut tera::Tera, input: &str, c: &tera::Context) -> (r: Option<
    String,
>)
    ensures
        r is Some ==> tera_contents(*final(t)) == tera_contents(*old(t)).remove(
            "__tera_one_off"@,
        ),
{
    t.render_str(input, c).ok()
}

/// The distinct values of a sequence, each at its first occurrence, in
/// order.
pub open spec fn dedup_first(s: Seq<Seq<char>>) -> Seq<Seq<char>>
    decreases s.len(),
{
    if s.len() == 0 {
        Seq::empty()
    } else {
        let rest = dedup_first(s.drop_last());
        if rest.contains(s.last()) {
            rest
        } else {
            rest.push(s.last())
        }
    }
}

/// Whether a vector of strings holds the given string.
pub fn contains_string(v: &Vec<String>, s: &String) -> (r: bool)
    ensures
        r == v.deep_view().contains(s@),
{
    let mut i: usize = 0;
    while i < v.len()
        invariant
            0 <= i <= v.len(),
            forall|j: int| 0 <= j < i ==> v.deep_view()[j] != s@,
        decreases v.len() - i,
    {
        if v[i].eq(s) {
            assert(v.deep_view()[i as int] == s@);
            return true;
        }
        i = i + 1;
    }
    assert(!v.deep_view().contains(s@));
    false
}

/// Drop every repeated string, keeping first occurrences in order.
pub fn dedup_strings(v: &Vec<String>) -> (r: Vec<String>)
    ensures
        r.deep_view() == dedup_first(v.deep_view()),
{
    let mut out: Vec<String> = Vec::new();
    let mut i: usize = 0;
    while i < v.len()
        invariant
            0 <= i <= v.len(),
            out.deep_view() == dedup_first(v.deep_view().take(i as int)),
        decreases v.len() - i,
    {
        proof {
            assert(v.deep_view().take(i + 1).drop_last() =~= v.deep_view().take(i as int));
            assert(v.deep_view().take(i + 1).last() == v.deep_view()[i as int]);
        }
        if !contains_string(&out, &v[i]) {
            out.push(v[i].clone());
        }
        proof {
            assert(out.deep_view() =~= dedup_first(v.deep_view().take(i + 1)));
        }
        i = i + 1;
    }
    proof {
        assert(v.deep_view().take(v.len() as int) =~= v.deep_view());
    }
    out
}

/// The identifiers referenced by a sequence of syntax nodes, in order,
/// repetitions kept.
pub open spec fn spec_idents(ns: Seq<tera::ast::Node>) -> Seq<Seq<char>>
    decreases ns.len(),
{
    if ns.len() == 0 {
        Seq::empty()
    } else {
        let rest = spec_idents(ns.drop_last());
        match node_ident(ns.last()) {
            Some(s) => rest.push(s),
            None => rest,
        }
    }
}

/// The distinct variable names a compiled file references, in the order
/// first seen.
pub fn harvest_variables(ast: &Vec<tera::ast::Node>) -> (r: Vec<String>)
    ensures
        r.deep_view() == dedup_first(spec_idents(ast@)),
{
    let mut raw: Vec<String> = Vec::new();
    let mut i: usize = 0;
    while i < ast.len()
        invariant
            0 <= i <= ast.len(),
            raw.deep_view() == spec_idents(ast@.take(i as int)),
        decreases ast.len() - i,
    {
        proof {
            assert(ast@.take(i + 1).drop_last() =~= ast@.take(i as int));
            assert(ast@.take(i + 1).last() == ast@[i as int]);
        }
        match node_variable_ident(&ast[i]) {
            Some(s) => {
                raw.push(s);
            },
            None => {},
        }
        proof {
            assert(raw.deep_view() =~= spec_idents(ast@.take(i + 1)));
        }
        i = i + 1;
    }
    proof {
        assert(ast@.take(ast.len() as int) =~= ast@);
    }
    dedup_strings(&raw)
}

/// The context a binding list denotes: later entries for the same name
/// override earlier ones.
pub open spec fn spec_context_of(bindings: Seq<(String, String)>) -> Map<Seq<char>, Seq<char>>
    decreases bindings.len(),
{
    if bindings.len() == 0 {
        Map::empty()
    } else {
        spec_context_of(bindings.drop_last()).insert(
            bindings.last().0@,
            bindings.last().1@,
        )
    }
}

/// Build a rendering context from ordered name/value bindings.
pub fn build_context(data: &Vec<(String, String)>) -> (c: tera::Context)
    ensures
        context_data(c) == spec_context_of(data@),
{
    let mut c = ctx_new();
    let mut i: usize = 0;
    while i < data.len()
        invariant
            0 <= i <= data.len(),
            context_data(c) == spec_context_of(data@.take(i as int)),
        decreases data.len() - i,
    {
        proof {
            assert(data@.take(i + 1).drop_last() =~= data@.take(i as int));
            assert(data@.take(i + 1).last() == data@[i as int]);
        }
        ctx_insert(&mut c, data[i].0.as_str(), &data[i].1);
        i = i + 1;
    }
    proof {
        assert(data@.take(data.len() as int) =~= data@);
    }
    c
}

} // verus!
