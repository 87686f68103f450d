use tinirun::models::{CodeRunnerLanguage, LanguageData};
use tinirun::registry::{
    asset_paths, assemble_templates, check_assets, load_registry, AssetPaths, LanguageAssets,
    LanguageMap,
};
use tinirun::template::{is_plain_template, template_parser};

fn sound() -> LanguageAssets {
    LanguageAssets {
        folder_found: true,
        dockerfile: Some(b"FROM {{ image }}".to_vec()),
        main_file: Some(b"main".to_vec()),
        fn_file: Some("fonction é".as_bytes().to_vec()),
    }
}

#[test]
fn asset_paths_lie_in_the_template_folder() {
    let data = LanguageData {
        image: "rust:1".to_string(),
        command: "./main".to_string(),
        template: "rust".to_string(),
        main_file: "main.rs".to_string(),
        fn_file: "function.rs".to_string(),
    };
    assert_eq!(
        asset_paths(&data),
        AssetPaths {
            folder: "templates/rust".to_string(),
            dockerfile: "templates/rust/Dockerfile.liquid".to_string(),
            main_file: "templates/rust/main.rs".to_string(),
            fn_file: "templates/rust/function.rs".to_string(),
        }
    );
}

#[test]
fn sound_assets_are_decoded() {
    let texts = check_assets(CodeRunnerLanguage::Rust, &sound()).ok().unwrap();
    assert_eq!(texts.dockerfile, "FROM {{ image }}");
    assert_eq!(texts.main_file, "main");
    assert_eq!(texts.fn_file, "fonction é");
}

fn defect(lang: CodeRunnerLanguage, assets: &LanguageAssets) -> String {
    match check_assets(lang, assets) {
        Err(msg) => msg,
        Ok(_) => panic!("expected a defect"),
    }
}

#[test]
fn first_asset_defect_is_reported() {
    let mut a = sound();
    a.folder_found = false;
    a.dockerfile = None;
    assert_eq!(
        defect(CodeRunnerLanguage::Python, &a),
        "missing template directory for Python"
    );
    let mut a = sound();
    a.dockerfile = None;
    a.main_file = None;
    assert_eq!(
        defect(CodeRunnerLanguage::Go, &a),
        "missing Dockerfile template for Go"
    );
    let mut a = sound();
    a.dockerfile = Some(vec![0xc3, 0x28]);
    assert_eq!(
        defect(CodeRunnerLanguage::Bash, &a),
        "invalid UTF8 in Dockerfile template for Bash"
    );
    let mut a = sound();
    a.main_file = None;
    assert_eq!(
        defect(CodeRunnerLanguage::JavaScript, &a),
        "missing main file for JavaScript"
    );
    let mut a = sound();
    a.main_file = Some(vec![0xff]);
    a.fn_file = None;
    assert_eq!(
        defect(CodeRunnerLanguage::TypeScript, &a),
        "invalid UTF8 in main file for TypeScript"
    );
    let mut a = sound();
    a.fn_file = None;
    assert_eq!(
        defect(CodeRunnerLanguage::Rust, &a),
        "missing function file for Rust"
    );
    let mut a = sound();
    a.fn_file = Some(vec![b'a', 0x80]);
    assert_eq!(
        defect(CodeRunnerLanguage::Rust, &a),
        "invalid UTF8 in function file for Rust"
    );
}

#[test]
fn dockerfile_template_must_be_plain() {
    for template in [
        "FROM {{ 99999999999999999999 }}",
        "FROM {{ image | upcase }}",
        "{{ -9223372036854775808 | divided_by: -1 }}",
        "{% assign x = image %}",
        "{% for x in image %}{% endfor %}",
        "{% raw %}{{ image }}{% endraw %}",
        "{% include 'x' %}",
        "{{ 'now' | date: '%Y' }}",
        "{{ image",
        "{% if image %}",
        "{% if image == 1 %}x{% endif %}",
        "{{ image2 }}",
        "{%if_x image %}",
        "{% %}",
    ] {
        let mut a = sound();
        a.dockerfile = Some(template.as_bytes().to_vec());
        let expected = if template == "{% if image %}" {
            // Plain, but the block is not closed: the parser refuses it.
            None
        } else {
            Some("unsupported construct in Dockerfile template for Go".to_string())
        };
        match (check_assets(CodeRunnerLanguage::Go, &a), expected) {
            (Err(msg), Some(expected)) => assert_eq!(msg, expected, "{template}"),
            (Ok(_), None) => {}
            (Ok(_), Some(_)) => panic!("expected '{template}' to be refused"),
            (Err(msg), None) => panic!("expected '{template}' to be taken, got {msg}"),
        }
    }
}

#[test]
fn plainness_is_decided_on_the_text() {
    assert!(is_plain_template("FROM {{ image }}"));
    assert!(is_plain_template("a { b } c %} }}"));
    assert!(!is_plain_template("{{ a }} {{ b | c }}"));
    assert!(!is_plain_template("{{ a"));
    assert!(!is_plain_template("{% endfor %}"));
    assert!(is_plain_template("{% endif %}"));
}

#[test]
fn plain_templates_are_taken() {
    for template in [
        "",
        "FROM python:3.13\nRUN echo 1 | cat > /tmp/{x}\n",
        "FROM {{ image }}\n{{- uid_gid -}}\n",
        "{% if dependencies %}RUN pip install {{ dependencies }}{% endif %}",
        "{%- if fn_file -%}a{% elsif main_file %}b{% else %}c{%endif%}",
        "{% unless dependencies %}x{% endunless %}",
        "{% if a and b or c contains d %}x{% endif %}",
        "ENV A=${B} {",
    ] {
        let mut a = sound();
        a.dockerfile = Some(template.as_bytes().to_vec());
        assert!(
            load_registry(&vec![(CodeRunnerLanguage::Rust, a)]).is_ok(),
            "expected '{template}' to load"
        );
    }
}

#[test]
fn stored_template_keeps_its_source() {
    let registry = load_registry(&vec![(CodeRunnerLanguage::Python, sound())])
        .ok()
        .unwrap();
    let templates = registry.get(CodeRunnerLanguage::Python).unwrap();
    assert_eq!(templates.dockerfile.source(), "FROM {{ image }}");
    assert_eq!(
        templates
            .dockerfile
            .render(&vec![("image".to_string(), Some("rust:1".to_string()))]),
        Ok("FROM rust:1".to_string())
    );
    assert!(templates.dockerfile.render(&vec![]).is_err());
    assert!(template_parser().is_ok());
}

#[test]
fn registry_holds_every_language_of_the_list() {
    let registry = load_registry(&vec![
        (CodeRunnerLanguage::Python, sound()),
        (CodeRunnerLanguage::Rust, sound()),
    ])
    .ok()
    .unwrap();
    assert_eq!(registry.len(), 2);
    assert!(registry.get(CodeRunnerLanguage::Python).is_some());
    assert_eq!(
        registry.get(CodeRunnerLanguage::Rust).unwrap().fn_file,
        "fonction é"
    );
    assert!(registry.get(CodeRunnerLanguage::Go).is_none());
    let empty = load_registry(&vec![]).ok().unwrap();
    assert_eq!(empty.len(), 0);
}

#[test]
fn registry_fails_on_the_first_defect() {
    let mut broken = sound();
    broken.main_file = None;
    let r = load_registry(&vec![
        (CodeRunnerLanguage::Python, sound()),
        (CodeRunnerLanguage::Rust, broken),
    ]);
    match r {
        Err(msg) => assert_eq!(msg, "missing main file for Rust"),
        Ok(_) => panic!("expected a failure"),
    }
}

#[test]
fn template_that_does_not_parse_is_fatal() {
    let mut bad = sound();
    bad.dockerfile = Some(b"{% if %}".to_vec());
    match load_registry(&vec![(CodeRunnerLanguage::Go, bad)]) {
        Err(msg) => assert!(
            msg.starts_with("failed to parse Dockerfile template for Go: "),
            "{msg}"
        ),
        Ok(_) => panic!("expected a failure"),
    }
}

#[test]
fn parser_refusal_is_worded_with_the_language() {
    let r = assemble_templates(
        CodeRunnerLanguage::TypeScript,
        Err("unexpected end".to_string()),
        "m".to_string(),
        "f".to_string(),
    );
    match r {
        Err(msg) => assert_eq!(
            msg,
            "failed to parse Dockerfile template for TypeScript: unexpected end"
        ),
        Ok(_) => panic!("expected a failure"),
    }
}

#[test]
fn language_map_replaces_and_finds() {
    let mut m: LanguageMap<u32> = LanguageMap::new();
    assert_eq!(m.len(), 0);
    assert_eq!(m.get(CodeRunnerLanguage::Go), None);
    m.insert(CodeRunnerLanguage::Go, 1);
    m.insert(CodeRunnerLanguage::Rust, 2);
    m.insert(CodeRunnerLanguage::Go, 3);
    assert_eq!(m.len(), 2);
    assert_eq!(m.get(CodeRunnerLanguage::Go), Some(&3));
    assert_eq!(m.get(CodeRunnerLanguage::Rust), Some(&2));
    assert_eq!(m.get(CodeRunnerLanguage::Bash), None);
    assert_eq!(m.position(CodeRunnerLanguage::Rust), Some(1));
    assert_eq!(m.position(CodeRunnerLanguage::Python), None);
}

#[test]
fn variant_names() {
    let names: Vec<&str> = CodeRunnerLanguage::all()
        .iter()
        .map(|l| l.variant_name())
        .collect();
    assert_eq!(
        names,
        vec!["Bash", "Go", "JavaScript", "Python", "Rust", "TypeScript"]
    );
}
