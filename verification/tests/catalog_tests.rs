use templatex::classify::{classify_file, FileClass};
use templatex::errors::Error;
use templatex::filter::Filter;
use templatex::templating::{build_template, EngineBuilder, RootInput};

fn patterns(ps: &[&str]) -> Option<Filter<String>> {
    Some(Filter::with_filter(ps.iter().map(|p| p.to_string()).collect()))
}

fn root(dir: &str, sources: &[(&str, &str)], images: &[&str]) -> RootInput {
    RootInput {
        dir: dir.to_string(),
        name_override: None,
        sources: sources.iter().map(|(n, c)| (n.to_string(), c.to_string())).collect(),
        images: images.iter().map(|i| i.to_string()).collect(),
    }
}

#[test]
fn templating_test() {
    let _engine = EngineBuilder::default()
        .template_dirs(vec![root("./templates", &[], &[])])
        .build()
        .unwrap();
}

#[test]
fn exclude_wins_over_keep_when_both_match() {
    // Overlapping sets: the exclude pattern also matches the kept file.
    let excl = patterns(&[".png"]);
    let keep = patterns(&["logo.png"]);
    assert_eq!(classify_file("demo/logo.png", &excl, &keep), FileClass::Excluded);
    // Disjoint sets: only the keep pattern matches, so the file is
    // forced to be a template source despite its image extension.
    let excl = patterns(&[".tmp"]);
    assert_eq!(classify_file("demo/logo.png", &excl, &keep), FileClass::Source);
    // Keep alone forces inclusion.
    assert_eq!(classify_file("demo/logo.png", &None, &keep), FileClass::Source);
    // Exclude alone drops the file.
    let excl = patterns(&[".png"]);
    assert_eq!(classify_file("demo/logo.png", &excl, &None), FileClass::Excluded);
}

#[test]
fn built_in_classification() {
    assert_eq!(classify_file("demo/logo.png", &None, &None), FileClass::Image);
    assert_eq!(classify_file("demo/main.tex", &None, &None), FileClass::Source);
    assert_eq!(classify_file("demo/main.aux", &None, &None), FileClass::Auxiliary);
    assert_eq!(classify_file("demo/main.log", &None, &None), FileClass::Auxiliary);
    // A pdf is both an image and an auxiliary extension; image wins.
    assert_eq!(classify_file("demo/figure.pdf", &None, &None), FileClass::Image);
    // No extension: dropped.
    assert_eq!(classify_file("demo/Makefile", &None, &None), FileClass::Auxiliary);
    // Dotted byproduct suffixes match as a whole extension chain.
    assert_eq!(classify_file("demo/paper.synctex.gz", &None, &None), FileClass::Auxiliary);
    assert_eq!(classify_file("demo/paper.run.xml", &None, &None), FileClass::Auxiliary);
    // A multi-part extension outside the built-in sets stays a source.
    assert_eq!(classify_file("demo/archive.tar.gz", &None, &None), FileClass::Source);
    // The sidecar metadata file is never part of the output.
    assert_eq!(classify_file("demo/templatex.toml", &None, &None), FileClass::Auxiliary);
}

#[test]
fn builder_classify_splits_sources_and_images() {
    let files = vec![
        "templatex.toml".to_string(),
        "main.tex".to_string(),
        "logo.png".to_string(),
        "build/main.aux".to_string(),
    ];
    let b = EngineBuilder::new();
    let cls = b.classify("demo", &files);
    assert_eq!(cls.sources, vec!["main.tex".to_string()]);
    assert_eq!(cls.images, vec!["demo/logo.png".to_string()]);
}

#[test]
fn build_without_roots_fails() {
    assert_eq!(EngineBuilder::new().build().err().unwrap(), Error::NoTemplateDirs);
    assert_eq!(
        EngineBuilder::new().template_dirs(vec![]).build().err().unwrap(),
        Error::NoTemplateDirs
    );
}

#[test]
fn build_template_reports_compile_failure() {
    let e = build_template(root("demo", &[("bad.tex", "{{ unclosed")], &[])).err().unwrap();
    assert_eq!(e, Error::CompilationError);
}

#[test]
fn build_template_without_name_fails() {
    let e = build_template(root("demo/", &[("a.tex", "hi")], &[])).err().unwrap();
    assert_eq!(e, Error::InvalidFilename);
}

#[test]
fn broken_root_is_absent_but_build_proceeds() {
    let engine = EngineBuilder::new()
        .template_dirs(vec![
            root("tpls/bad", &[("bad.tex", "{% endif %}")], &[]),
            root("tpls/good", &[("ok.tex", "static")], &[]),
        ])
        .build()
        .unwrap();
    assert_eq!(engine.templates.len(), 1);
    assert!(engine.get_template("good").is_some());
    assert!(engine.get_template("bad").is_none());
    assert_eq!(
        engine.template_dirs,
        vec!["tpls/bad".to_string(), "tpls/good".to_string()]
    );
}

#[test]
fn variables_are_harvested_per_file_in_first_seen_order() {
    let t = build_template(root(
        "demo",
        &[("main.tex", "{{ alpha }} then {{ beta }} then {{ alpha }} again")],
        &[],
    ))
    .unwrap();
    assert_eq!(t.files().len(), 1);
    assert_eq!(t.files()[0].path().as_str(), "main.tex");
    assert_eq!(
        t.files()[0].variables(),
        &vec!["alpha".to_string(), "beta".to_string()]
    );
}

#[test]
fn stray_image_path_is_dropped_at_build() {
    // Every catalog path lies within its template's source directory;
    // an image recorded outside it is not carried along.
    let t = build_template(root(
        "demo",
        &[("a.txt", "x")],
        &["elsewhere/pic.png", "demo/logo.png"],
    ))
    .unwrap();
    assert_eq!(t.image_files(), &vec!["demo/logo.png".to_string()]);
}

#[test]
fn template_name_prefers_override() {
    let mut r = root("dirs/plain", &[("a.txt", "x")], &[]);
    r.name_override = Some("Fancy".to_string());
    let t = build_template(r).unwrap();
    assert_eq!(t.name().as_str(), "Fancy");
    let t = build_template(root("dirs/plain", &[("a.txt", "x")], &[])).unwrap();
    assert_eq!(t.name().as_str(), "plain");
}
