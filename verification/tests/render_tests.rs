use templatex::errors::Error;
use templatex::metadata::{DirProbe, LoadableDir};
use templatex::render::RenderAction;
use templatex::templating::{build_template, collect_variables, EngineBuilder, RootInput};

fn root(dir: &str, sources: &[(&str, &str)], images: &[&str]) -> RootInput {
    RootInput {
        dir: dir.to_string(),
        name_override: None,
        sources: sources.iter().map(|(n, c)| (n.to_string(), c.to_string())).collect(),
        images: images.iter().map(|i| i.to_string()).collect(),
    }
}

fn bindings(bs: &[(&str, &str)]) -> Vec<(String, String)> {
    bs.iter().map(|(k, v)| (k.to_string(), v.to_string())).collect()
}

fn written(plan: &[RenderAction], path: &str) -> Option<String> {
    for a in plan {
        if let RenderAction::WriteFile { path: p, contents } = a {
            if p.as_str() == path {
                return Some(contents.clone());
            }
        }
    }
    None
}

#[test]
fn render_unknown_template_fails() {
    let engine = EngineBuilder::new()
        .template_dirs(vec![root("tpls/one", &[("a.txt", "x")], &[])])
        .build()
        .unwrap();
    let e = engine.render("out", "nope", &bindings(&[])).err().unwrap();
    assert_eq!(e, Error::TemplateNotFound);
}

#[test]
fn shared_variable_is_prompted_once_and_rendered_in_both_files() {
    let t = build_template(root(
        "tpls/report",
        &[
            ("a.tex", "Title: {{ title }}"),
            ("b.tex", "Again: {{ title }}"),
        ],
        &[],
    ))
    .unwrap();
    // Two references across two files harvest to exactly one entry.
    assert_eq!(collect_variables(&t), vec!["title".to_string()]);
    let engine = EngineBuilder::new()
        .template_dirs(vec![root(
            "tpls/report",
            &[
                ("a.tex", "Title: {{ title }}"),
                ("b.tex", "Again: {{ title }}"),
            ],
            &[],
        )])
        .build()
        .unwrap();
    let plan = engine.render("out", "report", &bindings(&[("title", "Report")])).unwrap();
    assert_eq!(written(&plan, "out/src/a.tex"), Some("Title: Report".to_string()));
    assert_eq!(written(&plan, "out/src/b.tex"), Some("Again: Report".to_string()));
}

#[test]
fn later_binding_overrides_earlier() {
    let engine = EngineBuilder::new()
        .template_dirs(vec![root("tpls/one", &[("a.txt", "{{ v }}")], &[])])
        .build()
        .unwrap();
    let plan = engine
        .render("out", "one", &bindings(&[("v", "first"), ("v", "second")]))
        .unwrap();
    assert_eq!(written(&plan, "out/src/a.txt"), Some("second".to_string()));
}

#[test]
fn static_text_round_trips_exactly() {
    let text = "just static text\nno variables at all\n";
    let engine = EngineBuilder::new()
        .template_dirs(vec![root("tpls/plain", &[("note.txt", text)], &[])])
        .build()
        .unwrap();
    let plan = engine.render("out", "plain", &bindings(&[])).unwrap();
    assert_eq!(written(&plan, "out/src/note.txt"), Some(text.to_string()));
}

#[test]
fn image_assets_are_copied_not_rendered() {
    let engine = EngineBuilder::new()
        .template_dirs(vec![root(
            "tpls/pics",
            &[("readme.txt", "static")],
            &["tpls/pics/logo.png"],
        )])
        .build()
        .unwrap();
    let plan = engine.render("out", "pics", &bindings(&[])).unwrap();
    // The asset appears exactly once, as a byte-for-byte copy of the
    // source file, and never as written (rendered) text.
    let copies: Vec<&RenderAction> = plan
        .iter()
        .filter(|a| matches!(a, RenderAction::CopyFile { .. }))
        .collect();
    assert_eq!(copies.len(), 1);
    match copies[0] {
        RenderAction::CopyFile { from, to } => {
            assert_eq!(from.as_str(), "tpls/pics/logo.png");
            assert_eq!(to.as_str(), "out/src/logo.png");
        },
        _ => panic!("expected a copy"),
    }
    assert!(written(&plan, "out/src/logo.png").is_none());
}

#[test]
fn auxiliary_named_source_is_skipped_at_render_time() {
    let engine = EngineBuilder::new()
        .template_dirs(vec![root(
            "tpls/mixed",
            &[("keep.txt", "kept"), ("notes.log", "dropped")],
            &[],
        )])
        .build()
        .unwrap();
    let plan = engine.render("out", "mixed", &bindings(&[])).unwrap();
    assert_eq!(written(&plan, "out/src/keep.txt"), Some("kept".to_string()));
    assert!(written(&plan, "out/src/notes.log").is_none());
}

#[test]
fn end_to_end_demo_scenario() {
    // The demo root: a sidecar naming the template, one source
    // referencing one variable, and one image asset.
    let loaded = DirProbe {
        path: "demo".to_string(),
        is_dir: true,
        sidecar: Some("name = \"Demo\"".to_string()),
    }
    .load_dir()
    .unwrap();
    assert_eq!(loaded.name(), "Demo");
    let files = vec![
        "templatex.toml".to_string(),
        "main.tex".to_string(),
        "logo.png".to_string(),
    ];
    let builder = EngineBuilder::new();
    let cls = builder.classify("demo", &files);
    assert_eq!(cls.sources, vec!["main.tex".to_string()]);
    assert_eq!(cls.images, vec!["demo/logo.png".to_string()]);
    let engine = builder
        .template_dirs(vec![RootInput {
            dir: "demo".to_string(),
            name_override: Some(loaded.config.name.clone()),
            sources: vec![("main.tex".to_string(), "Project: {{ project }}\n".to_string())],
            images: cls.images,
        }])
        .build()
        .unwrap();
    let t = engine.get_template("Demo").unwrap();
    assert_eq!(t.name().as_str(), "Demo");
    assert_eq!(t.files().len(), 1);
    assert_eq!(t.files()[0].path().as_str(), "main.tex");
    assert_eq!(t.files()[0].variables(), &vec!["project".to_string()]);
    assert_eq!(t.image_files(), &vec!["demo/logo.png".to_string()]);

    let plan = engine
        .render("out", "Demo", &bindings(&[("project", "MyPaper")]))
        .unwrap();
    assert_eq!(
        written(&plan, "out/src/main.tex"),
        Some("Project: MyPaper\n".to_string())
    );
    match &plan[0] {
        RenderAction::CopyFile { from, to } => {
            assert_eq!(from.as_str(), "demo/logo.png");
            assert_eq!(to.as_str(), "out/src/logo.png");
        },
        _ => panic!("expected the image copy first"),
    }
    // The generated build manifest stands at the output root and
    // carries the output project's base name.
    let manifest = written(&plan, "out/Tectonic.toml").unwrap();
    assert!(manifest.contains("name = \"out\""));
    match plan.last().unwrap() {
        RenderAction::WriteFile { path, .. } => assert_eq!(path.as_str(), "out/Tectonic.toml"),
        _ => panic!("expected the manifest last"),
    }
}
