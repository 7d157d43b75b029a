use templatex::errors::Error;
use templatex::metadata::{DirProbe, LoadableDir, LoadedTemplateDir};
use templatex::paths::{extension, file_name, path_join, strip_dir_prefix};
use templatex::picker::{filter_dirs, select_dirs};
use templatex::filter::Filter;

fn probe(path: &str, is_dir: bool, sidecar: Option<&str>) -> DirProbe {
    DirProbe { path: path.to_string(), is_dir, sidecar: sidecar.map(|s| s.to_string()) }
}

#[test]
fn load_without_sidecar_falls_back_to_base_name() {
    let d = probe("some/where/mytpl", true, None).load_dir().unwrap();
    assert_eq!(d.name(), "mytpl");
    assert_eq!(d.description(), None);
    assert!(!d.config.ignore);
    assert!(d.config.exclude.is_none());
    assert!(d.config.keep.is_none());
    assert_eq!(d.dir().as_str(), "some/where/mytpl");
}

#[test]
fn load_rejects_non_directory() {
    let e = probe("some/file.txt", false, None).load_dir().err().unwrap();
    assert_eq!(e, Error::NotADirectory);
}

#[test]
fn load_without_base_name_fails() {
    let e = probe("some/where/", true, None).load_dir().err().unwrap();
    assert_eq!(e, Error::InvalidFilename);
}

#[test]
fn load_parses_sidecar_metadata() {
    let text = format!(
        "name = \"Demo\"\ndescription = \"A demo\"\nignore = false\nexclude = [\"a\", \"b\"]\ninc{} = [\"c\"]",
        "lude"
    );
    let d = probe("demo", true, Some(text.as_str())).load_dir().unwrap();
    assert_eq!(d.name(), "Demo");
    assert_eq!(d.description(), Some("A demo"));
    assert!(!d.config.ignore);
    assert_eq!(d.config.exclude, Some(vec!["a".to_string(), "b".to_string()]));
    assert_eq!(d.config.keep, Some(vec!["c".to_string()]));
}

#[test]
fn load_defaults_missing_sidecar_keys() {
    // A sidecar without a name falls back to the directory base name.
    let d = probe("demo", true, Some("description = \"only this\"")).load_dir().unwrap();
    assert_eq!(d.name(), "demo");
    assert_eq!(d.description(), Some("only this"));
    assert!(!d.config.ignore);
}

#[test]
fn load_unnamed_sidecar_without_base_name_fails() {
    let e = probe("some/where/", true, Some("ignore = false")).load_dir().err().unwrap();
    assert_eq!(e, Error::InvalidFilename);
}

#[test]
fn load_rejects_malformed_sidecar() {
    let e = probe("demo", true, Some("= not toml =")).load_dir().err().unwrap();
    assert_eq!(e, Error::TemplateConfigError);
}

#[test]
fn load_rejects_wrongly_typed_sidecar_key() {
    let e = probe("demo", true, Some("name = 123")).load_dir().err().unwrap();
    assert_eq!(e, Error::TemplateConfigError);
    let e = probe("demo", true, Some("ignore = \"yes\"")).load_dir().err().unwrap();
    assert_eq!(e, Error::TemplateConfigError);
    let e = probe("demo", true, Some("exclude = [1, 2]")).load_dir().err().unwrap();
    assert_eq!(e, Error::TemplateConfigError);
}

#[test]
fn ignored_dir_is_dropped_from_selection() {
    let kept = probe("dirs/keepme", true, None).load_dir().unwrap();
    let skipped = probe("dirs/skipme", true, Some("name = \"Skipme\"\nignore = true"))
        .load_dir()
        .unwrap();
    assert!(skipped.config.ignore);
    let selected = select_dirs(vec![skipped, kept]);
    assert_eq!(selected.len(), 1);
    assert_eq!(selected[0].name(), "keepme");
}

#[test]
fn narrowing_by_display_name() {
    let a = LoadedTemplateDir::new("article".to_string(), None, "t/a".to_string());
    let b = LoadedTemplateDir::new("beamer".to_string(), None, "t/b".to_string());
    let all = filter_dirs(vec![a.clone(), b.clone()], &Filter::<String>::new());
    assert_eq!(all.len(), 2);
    let narrowed = filter_dirs(vec![a, b], &Filter::<String>::with_filter(vec!["art".to_string()]));
    assert_eq!(narrowed.len(), 1);
    assert_eq!(narrowed[0].name(), "article");
}

#[test]
fn path_helpers() {
    assert_eq!(path_join("a/b", "c.txt"), "a/b/c.txt");
    assert_eq!(file_name("a/b/c.txt"), Some("c.txt".to_string()));
    assert_eq!(file_name("plain"), Some("plain".to_string()));
    assert_eq!(file_name("a/b/"), None);
    assert_eq!(extension("a/b/c.tar.gz"), Some("tar.gz".to_string()));
    assert_eq!(extension("a/b/c.txt"), Some("txt".to_string()));
    assert_eq!(extension("a/b.dir/plain"), None);
    assert_eq!(extension("a/.hidden"), None);
    assert_eq!(strip_dir_prefix("a/b/c", "a"), Some("b/c".to_string()));
    assert_eq!(strip_dir_prefix("a/b/c", "a/b"), Some("c".to_string()));
    assert_eq!(strip_dir_prefix("ax/b", "a"), None);
    assert_eq!(strip_dir_prefix("a", "a"), None);
}
