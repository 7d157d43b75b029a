//! Loading per-directory template metadata.
//!
//! A template root directory may carry a sidecar metadata file (TOML
//! key/value text) that names the template, describes it, marks it as
//! ignored, or overrides the built-in file classification with `exclude`
//! and keep pattern lists. When the sidecar is absent, or assigns no
//! name, the directory's base name serves as the template name; when
//! it is present but malformed, loading that directory fails.
//!
//! The TOML text itself is parsed by the `toml` crate behind trusted
//! items; everything decided from the parsed table is verified.

use vstd::prelude::*;
use vstd::string::StringExecFns;

use crate::errors::Error;
use crate::paths::{file_name, spec_file_name};

verus! {

#[verifier::external_type_specification]
#[verifier::external_body]
#[verifier::reject_recursive_types(K)]
#[verifier::reject_recursive_types(V)]
pub struct ExTomlMap<K, V>(toml::map::Map<K, V>);

#[verifier::external_type_specification]
#[verifier::external_body]
pub struct ExTomlValue(toml::Value);

/// Whether the parsed table holds an entry for a key.
pub uninterp spec fn table_contains(t: toml::map::Map<String, toml::Value>, k: Seq<char>) -> bool;

/// The string value a parsed table holds at a key; absent when the key
/// is missing or its value is not a string.
pub uninterp spec fn table_str(t: toml::map::Map<String, toml::Value>, k: Seq<char>) -> Option<
    Seq<char>,
>;

/// The boolean value a parsed table holds at a key; absent when the key
/// is missing or its value is not a boolean.
pub uninterp spec fn table_bool(t: toml::map::Map<String, toml::Value>, k: Seq<char>) -> Option<
    bool,
>;

/// The list of strings a parsed table holds at a key; absent when the
/// key is missing or its value is not an array of strings.
pub uninterp spec fn table_str_list(t: toml::map::Map<String, toml::Value>, k: Seq<char>) -> Option<
    Seq<Seq<char>>,
>;

/// Whether the text parses as a TOML table. Parsing is a
/// deterministic function of the text.
pub uninterp spec fn toml_parses(s: Seq<char>) -> bool;

/// Whether the table parsed from the text has an entry at the key.
pub uninterp spec fn toml_key_present(s: Seq<char>, k: Seq<char>) -> bool;

/// The string value the table parsed from the text holds at the key.
pub uninterp spec fn toml_str_at(s: Seq<char>, k: Seq<char>) -> Option<Seq<char>>;

/// The boolean value the table parsed from the text holds at the key.
pub uninterp spec fn toml_bool_at(s: Seq<char>, k: Seq<char>) -> Option<bool>;

/// The list of strings the table parsed from the text holds at the key.
pub uninterp spec fn toml_str_list_at(s: Seq<char>, k: Seq<char>) -> Option<Seq<Seq<char>>>;

/// Relies on toml::from_str: parses TOML text into a table of key/value
/// pairs; malformed text yields nothing. The same text always parses to
/// the same table, so the table's entries are the text's entries.
#[verifier::external_body]
pub(crate) fn parse_toml_table(s: &str) -> (r: Option<toml::map::Map<String, toml::Value>>)
    ensures
        match r {
            Some(t) => {
                &&& toml_parses(s@)
                &&& (forall|k: Seq<char>| #[trigger] table_contains(t, k) == toml_key_present(s@, k))
                &&& (forall|k: Seq<char>| #[trigger] table_str(t, k) == toml_str_at(s@, k))
                &&& (forall|k: Seq<char>| #[trigger] table_bool(t, k) == toml_bool_at(s@, k))
                &&& (forall|k: Seq<char>|
                    #[trigger] table_str_list(t, k) == toml_str_list_at(s@, k))
            },
            None => !toml_parses(s@),
        },
{
    toml::from_str::<toml::Table>(s).ok()
}

/// Relies on toml::map::Map::contains_key: whether the table has an
/// entry for the key.
#[verifier::external_body]
pub(crate) fn table_has(t: &toml::map::Map<String, toml::Value>, k: &str) -> (r: bool)
    ensures
        r == table_contains(*t, k@),
{
    t.contains_key(k)
}

/// Relies on toml::map::Map::get and toml::Value::as_str: the string
/// value at the key, if the key is present with a string value.
#[verifier::external_body]
pub(crate) fn table_get_str(t: &toml::map::Map<String, toml::Value>, k: &str) -> (r: Option<
    String,
>)
    ensures
        match r {
            Some(s) => table_str(*t, k@) == Some(s@) && table_contains(*t, k@),
            None => table_str(*t, k@) is None,
        },
{
    match t.get(k) {
        Some(v) => v.as_str().map(|s| s.to_owned()),
        None => None,
    }
}

/// Relies on toml::map::Map::get and toml::Value::as_bool: the boolean
/// value at the key, if the key is present with a boolean value.
#[verifier::external_body]
pub(crate) fn table_get_bool(t: &toml::map::Map<String, toml::Value>, k: &str) -> (r: Option<bool>)
    ensures
        match r {
            Some(b) => table_bool(*t, k@) == Some(b) && table_contains(*t, k@),
            None => table_bool(*t, k@) is None,
        },
{
    match t.get(k) {
        Some(v) => v.as_bool(),
        None => None,
    }
}

/// Relies on toml::map::Map::get, toml::Value::as_array and
/// toml::Value::as_str: the array of strings at the key, if the key is
/// present with such an array.
#[verifier::external_body]
pub(crate) fn table_get_str_list(t: &toml::map::Map<String, toml::Value>, k: &str) -> (r: Option<
    Vec<String>,
>)
    ensures
        match r {
            Some(v) => table_str_list(*t, k@) == Some(v.deep_view()) && table_contains(*t, k@),
            None => table_str_list(*t, k@) is None,
        },
{
    let arr = t.get(k)?.as_array()?;
    let mut out = Vec::new();
    for x in arr {
        out.push(x.as_str()?.to_owned());
    }
    Some(out)
}

/// The sidecar key naming the patterns that force files to be kept as
/// template sources.
pub closed spec fn spec_keep_key() -> Seq<char> {
    "inc"@ + "lude"@
}

/// The sidecar key for the kept-pattern list.
pub fn keep_key() -> (r: String)
    ensures
        r@ == spec_keep_key(),
{
    let mut k = String::new();
    k.append("inc");
    k.append("lude");
    proof {
        assert(k@ =~= spec_keep_key());
    }
    k
}

/// The fixed name of the sidecar metadata file inside a template root.
pub fn sidecar_file_name() -> (r: &'static str)
    ensures
        r@ == "templatex.toml"@,
{
    "templatex.toml"
}

/// The per-directory metadata read from the sidecar file, or derived
/// from the directory itself when the sidecar is absent.
#[derive(Clone)]
pub struct LoadedTemplateDirConfig {
    /// The template's display name; the directory base name when unset.
    pub name: String,
    /// An optional free-text description.
    pub description: Option<String>,
    /// Exclude this directory from the catalog entirely.
    pub ignore: bool,
    /// Patterns whose matching files are dropped, overriding the
    /// built-in classification.
    pub exclude: Option<Vec<String>>,
    /// Patterns whose matching files are kept as template sources,
    /// overriding the built-in classification.
    pub keep: Option<Vec<String>>,
}

/// A well-formed sidecar table: every known key that is present carries
/// a value of the expected type.
pub open spec fn spec_config_ok(t: toml::map::Map<String, toml::Value>) -> bool {
    &&& (table_contains(t, "name"@) ==> table_str(t, "name"@) is Some)
    &&& (table_contains(t, "description"@) ==> table_str(t, "description"@) is Some)
    &&& (table_contains(t, "ignore"@) ==> table_bool(t, "ignore"@) is Some)
    &&& (table_contains(t, "exclude"@) ==> table_str_list(t, "exclude"@) is Some)
    &&& (table_contains(t, spec_keep_key()) ==> table_str_list(t, spec_keep_key()) is Some)
}

/// The name a well-formed table assigns: the `name` entry, or empty.
pub open spec fn spec_config_name(t: toml::map::Map<String, toml::Value>) -> Seq<char> {
    if table_contains(t, "name"@) {
        table_str(t, "name"@)->Some_0
    } else {
        Seq::empty()
    }
}

/// The metadata a parsed sidecar table denotes. Missing keys fall back
/// to their defaults; a present key of the wrong type is an error.
pub fn config_from_table(t: &toml::map::Map<String, toml::Value>) -> (r: Result<
    LoadedTemplateDirConfig,
    Error,
>)
    ensures
        match r {
            Ok(c) => {
                &&& spec_config_ok(*t)
                &&& c.name@ == spec_config_name(*t)
                &&& (match c.description {
                    Some(d) => table_str(*t, "description"@) == Some(d@) && table_contains(
                        *t,
                        "description"@,
                    ),
                    None => !table_contains(*t, "description"@),
                })
                &&& c.ignore == (if table_contains(*t, "ignore"@) {
                    table_bool(*t, "ignore"@)->Some_0
                } else {
                    false
                })
                &&& (match c.exclude {
                    Some(v) => table_str_list(*t, "exclude"@) == Some(v.deep_view())
                        && table_contains(*t, "exclude"@),
                    None => !table_contains(*t, "exclude"@),
                })
                &&& (match c.keep {
                    Some(v) => table_str_list(*t, spec_keep_key()) == Some(v.deep_view())
                        && table_contains(*t, spec_keep_key()),
                    None => !table_contains(*t, spec_keep_key()),
                })
            },
            Err(e) => e == Error::TemplateConfigError && !spec_config_ok(*t),
        },
{
    let name = match table_get_str(t, "name") {
        Some(s) => s,
        None => {
            if table_has(t, "name") {
                return Err(Error::TemplateConfigError);
            }
            String::new()
        },
    };
    let description = match table_get_str(t, "description") {
        Some(s) => Some(s),
        None => {
            if table_has(t, "description") {
                return Err(Error::TemplateConfigError);
            }
            None
        },
    };
    let ignore = match table_get_bool(t, "ignore") {
        Some(b) => b,
        None => {
            if table_has(t, "ignore") {
                return Err(Error::TemplateConfigError);
            }
            false
        },
    };
    let exclude = match table_get_str_list(t, "exclude") {
        Some(v) => Some(v),
        None => {
            if table_has(t, "exclude") {
                return Err(Error::TemplateConfigError);
            }
            None
        },
    };
    let kk = keep_key();
    let keep = match table_get_str_list(t, kk.as_str()) {
        Some(v) => Some(v),
        None => {
            if table_has(t, kk.as_str()) {
                return Err(Error::TemplateConfigError);
            }
            None
        },
    };
    Ok(LoadedTemplateDirConfig { name, description, ignore, exclude, keep })
}

/// A well-formed sidecar text: it parses, and every known key that is
/// present carries a value of the expected type.
pub open spec fn spec_sidecar_wf(s: Seq<char>) -> bool {
    &&& toml_parses(s)
    &&& (toml_key_present(s, "name"@) ==> toml_str_at(s, "name"@) is Some)
    &&& (toml_key_present(s, "description"@) ==> toml_str_at(s, "description"@) is Some)
    &&& (toml_key_present(s, "ignore"@) ==> toml_bool_at(s, "ignore"@) is Some)
    &&& (toml_key_present(s, "exclude"@) ==> toml_str_list_at(s, "exclude"@) is Some)
    &&& (toml_key_present(s, spec_keep_key()) ==> toml_str_list_at(s, spec_keep_key()) is Some)
}

/// The display name a sidecar text assigns; empty when it assigns none.
pub open spec fn spec_sidecar_name(s: Seq<char>) -> Seq<char> {
    if toml_key_present(s, "name"@) {
        toml_str_at(s, "name"@)->Some_0
    } else {
        Seq::empty()
    }
}

/// The description a sidecar text assigns, if any.
pub open spec fn spec_sidecar_description(s: Seq<char>) -> Option<Seq<char>> {
    if toml_key_present(s, "description"@) {
        Some(toml_str_at(s, "description"@)->Some_0)
    } else {
        None
    }
}

/// Whether a sidecar text marks its directory as ignored.
pub open spec fn spec_sidecar_ignore(s: Seq<char>) -> bool {
    if toml_key_present(s, "ignore"@) {
        toml_bool_at(s, "ignore"@)->Some_0
    } else {
        false
    }
}

/// The exclude override patterns a sidecar text assigns, if any.
pub open spec fn spec_sidecar_exclude(s: Seq<char>) -> Option<Seq<Seq<char>>> {
    if toml_key_present(s, "exclude"@) {
        toml_str_list_at(s, "exclude"@)
    } else {
        None
    }
}

/// The keep override patterns a sidecar text assigns, if any.
pub open spec fn spec_sidecar_keep(s: Seq<char>) -> Option<Seq<Seq<char>>> {
    if toml_key_present(s, spec_keep_key()) {
        toml_str_list_at(s, spec_keep_key())
    } else {
        None
    }
}

/// A template root directory paired with its loaded metadata.
#[derive(Clone)]
pub struct LoadedTemplateDir {
    pub config: LoadedTemplateDirConfig,
    pub dir: String,
}

impl LoadedTemplateDir {
    /// Metadata derived from the directory alone: the given name, an
    /// optional description, and every other field at its default.
    pub fn new(name: String, description: Option<String>, dir: String) -> (r: Self)
        ensures
            r.config.name@ == name@,
            r.config.description == description,
            !r.config.ignore,
            r.config.exclude is None,
            r.config.keep is None,
            r.dir@ == dir@,
    {
        let config = LoadedTemplateDirConfig {
            name,
            description,
            ignore: false,
            exclude: None,
            keep: None,
        };
        LoadedTemplateDir { config, dir }
    }

    pub fn from_config(config: LoadedTemplateDirConfig, dir: String) -> (r: Self)
        ensures
            r == (LoadedTemplateDir { config, dir }),
    {
        LoadedTemplateDir { config, dir }
    }

    /// The display name from the metadata.
    pub fn name(&self) -> (r: &str)
        ensures
            r@ == self.config.name@,
    {
        self.config.name.as_str()
    }

    /// The description from the metadata, if any.
    pub fn description(&self) -> (r: Option<&str>)
        ensures
            match r {
                Some(d) => self.config.description matches Some(s) && s@ == d@,
                None => self.config.description is None,
            },
    {
        match &self.config.description {
            Some(d) => Some(d.as_str()),
            None => None,
        }
    }

    /// The directory the metadata was loaded from.
    pub fn dir(&self) -> (r: &String)
        ensures
            r == self.dir,
    {
        &self.dir
    }
}

/// The observed state of one candidate template root: whether the path
/// is a directory, and the sidecar file's text when one was readable.
pub struct DirProbe {
    /// The root directory's path.
    pub path: String,
    /// Whether the path resolves to a directory.
    pub is_dir: bool,
    /// The contents of the sidecar metadata file, when present and
    /// readable.
    pub sidecar: Option<String>,
}

/// Something a template directory's metadata can be loaded from.
pub trait LoadableDir {
    /// Which outcomes loading this directory allows.
    spec fn load_post(&self, r: Result<LoadedTemplateDir, Error>) -> bool;

    /// Load the directory's metadata, falling back to name-derived
    /// defaults when no sidecar text is available.
    fn load_dir(&self) -> (r: Result<LoadedTemplateDir, Error>)
        ensures
            self.load_post(r),
    ;
}

impl LoadableDir for DirProbe {
    /// Loading fails with `NotADirectory` for a non-directory; without
    /// sidecar text it falls back to the base name (or fails with
    /// `InvalidFilename` when there is none); with sidecar text it
    /// yields exactly the metadata the text assigns, the display name
    /// falling back to the base name when the text leaves it unset or
    /// empty, or fails with `TemplateConfigError` on malformed text.
    open spec fn load_post(&self, r: Result<LoadedTemplateDir, Error>) -> bool {
        if !self.is_dir {
            r == Err::<LoadedTemplateDir, Error>(Error::NotADirectory)
        } else {
            match self.sidecar {
                None => match spec_file_name(self.path@) {
                    None => r == Err::<LoadedTemplateDir, Error>(Error::InvalidFilename),
                    Some(base) => match r {
                        Ok(d) => {
                            &&& d.dir@ == self.path@
                            &&& d.config.name@ == base
                            &&& d.config.description is None
                            &&& !d.config.ignore
                            &&& d.config.exclude is None
                            &&& d.config.keep is None
                        },
                        Err(_) => false,
                    },
                },
                Some(c) => if !spec_sidecar_wf(c@) {
                    r == Err::<LoadedTemplateDir, Error>(Error::TemplateConfigError)
                } else if spec_sidecar_name(c@).len() == 0 && spec_file_name(self.path@) is None {
                    r == Err::<LoadedTemplateDir, Error>(Error::InvalidFilename)
                } else {
                    match r {
                        Ok(d) => {
                            &&& d.dir@ == self.path@
                            &&& d.config.name@ == (if spec_sidecar_name(c@).len() > 0 {
                                spec_sidecar_name(c@)
                            } else {
                                spec_file_name(self.path@)->Some_0
                            })
                            &&& (match d.config.description {
                                Some(x) => spec_sidecar_description(c@) == Some(x@),
                                None => spec_sidecar_description(c@) is None,
                            })
                            &&& d.config.ignore == spec_sidecar_ignore(c@)
                            &&& (match d.config.exclude {
                                Some(v) => spec_sidecar_exclude(c@) == Some(v.deep_view()),
                                None => spec_sidecar_exclude(c@) is None,
                            })
                            &&& (match d.config.keep {
                                Some(v) => spec_sidecar_keep(c@) == Some(v.deep_view()),
                                None => spec_sidecar_keep(c@) is None,
                            })
                        },
                        Err(_) => false,
                    }
                },
            }
        }
    }

    fn load_dir(&self) -> (r: Result<LoadedTemplateDir, Error>) {
        if !self.is_dir {
            return Err(Error::NotADirectory);
        }
        match &self.sidecar {
            None => match file_name(self.path.as_str()) {
                None => Err(Error::InvalidFilename),
                Some(base) => Ok(LoadedTemplateDir::new(base, None, self.path.clone())),
            },
            Some(c) => match parse_toml_table(c.as_str()) {
                None => Err(Error::TemplateConfigError),
                Some(tbl) => match config_from_table(&tbl) {
                    Err(e) => Err(e),
                    Ok(config) => {
                        let config = if config.name.as_str().is_empty() {
                            match file_name(self.path.as_str()) {
                                None => {
                                    return Err(Error::InvalidFilename);
                                },
                                Some(b) => LoadedTemplateDirConfig {
                                    name: b,
                                    description: config.description,
                                    ignore: config.ignore,
                                    exclude: config.exclude,
                                    keep: config.keep,
                                },
                            }
                        } else {
                            config
                        };
                        Ok(LoadedTemplateDir::from_config(config, self.path.clone()))
                    },
                },
            },
        }
    }
}

} // verus!
