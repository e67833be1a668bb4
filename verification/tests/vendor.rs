use dioxus_codemirror::vendor::{core_entries, languages, CodemirrorVendor, Crawl};

#[test]
fn specifier_is_module_accepts_specifiers() {
    assert!(CodemirrorVendor::specifier_is_module("./state.mjs"));
    assert!(CodemirrorVendor::specifier_is_module("/node/process.mjs"));
    assert!(CodemirrorVendor::specifier_is_module("@codemirror/state"));
    assert!(CodemirrorVendor::specifier_is_module("/*@lezer/lr@1.4.10/es2022/lr.mjs"));
    assert!(CodemirrorVendor::specifier_is_module("style-mod"));
}

#[test]
fn specifier_is_module_rejects_false_positives() {
    assert!(!CodemirrorVendor::specifier_is_module(""));
    assert!(!CodemirrorVendor::specifier_is_module(","));
    assert!(!CodemirrorVendor::specifier_is_module("a b"));
    assert!(!CodemirrorVendor::specifier_is_module("https://esm.sh/x"));
    assert!(!CodemirrorVendor::specifier_is_module("*x"));
    assert!(!CodemirrorVendor::specifier_is_module("é"));
}

#[test]
fn path_resolve_examples() {
    assert_eq!(CodemirrorVendor::path_resolve("/a/b/c.mjs", "../d.mjs"), "/a/d.mjs");
    assert_eq!(CodemirrorVendor::path_resolve("/a/b/c.mjs", "./d.mjs"), "/a/b/d.mjs");
    assert_eq!(CodemirrorVendor::path_resolve("/a/c.mjs", "../../../d.mjs"), "/d.mjs");
    assert_eq!(CodemirrorVendor::path_resolve("", "./x/./y.mjs"), "/x/y.mjs");
    assert_eq!(CodemirrorVendor::path_resolve("c.mjs", "d.mjs"), "/d.mjs");
    assert_eq!(CodemirrorVendor::path_resolve("//a//b/c", "..//e"), "/a/e");
}

#[test]
fn path_stem_examples() {
    assert_eq!(CodemirrorVendor::path_stem("/node/events.mjs"), "node_events");
    assert_eq!(
        CodemirrorVendor::path_stem("/*@lezer/lr@1.4.10/es2022/lr.mjs"),
        "__lezer_lr_1_4_10_es2022_lr"
    );
    assert_eq!(CodemirrorVendor::path_stem("//x.mjs.mjs"), "x");
    assert_eq!(CodemirrorVendor::path_stem("/a-b.js"), "a-b_js");
    assert_eq!(CodemirrorVendor::path_stem("/.mjs"), "");
}

#[test]
fn package_spec_examples() {
    assert_eq!(CodemirrorVendor::package_spec("codemirror"), "codemirror@6.0.2");
    assert_eq!(CodemirrorVendor::package_spec("@codemirror/lang-yaml"), "@codemirror/lang-yaml@6.1.3");
    assert_eq!(
        CodemirrorVendor::package_spec("@codemirror/lang-markdown"),
        "@codemirror/lang-markdown@6.5.0"
    );
    assert_eq!(CodemirrorVendor::package_spec("@codemirror/lsp-client"), "@codemirror/lsp-client@6.2.4");
    assert_eq!(CodemirrorVendor::package_spec("@codemirror/view"), "@codemirror/view@6");
    assert_eq!(CodemirrorVendor::package_spec("@lezer/highlight"), "@lezer/highlight@1");
    assert_eq!(CodemirrorVendor::package_spec("style-mod"), "style-mod");
}

#[test]
fn file_stem_examples() {
    assert_eq!(CodemirrorVendor::file_stem("@codemirror/state"), "codemirror__state");
    assert_eq!(CodemirrorVendor::file_stem("codemirror"), "codemirror");
    assert_eq!(CodemirrorVendor::file_stem("@@a/b/c"), "a__b__c");
}

#[test]
fn vendored_tables() {
    assert_eq!(
        core_entries(),
        vec![
            "codemirror",
            "@codemirror/state",
            "@codemirror/view",
            "@codemirror/language",
            "@codemirror/lsp-client",
            "@lezer/highlight"
        ]
    );
    let names: Vec<&str> = languages().iter().map(|l| l.name).collect();
    assert_eq!(names, vec!["yaml", "markdown", "javascript", "css", "html"]);
}

#[test]
fn index_js_lists_languages() {
    let index_js = CodemirrorVendor::index_js_content();
    assert!(index_js.starts_with("// Generated by `cargo run -p xtask -- vendor`. Do not edit.\n//\n// Imports every vendored language."));
    assert!(index_js.contains("export { EditorView, minimalSetup } from \"./codemirror.js\";\n"));
    assert!(index_js.contains(
        "export { lineNumbers, highlightActiveLineGutter, highlightActiveLine, highlightWhitespace, rectangularSelection, crosshairCursor, keymap, Decoration, ViewPlugin } from \"./codemirror__view.js\";\n"
    ));
    assert!(index_js.contains("import { yaml } from \"./codemirror__lang-yaml.js\";\nimport { markdown } from \"./codemirror__lang-markdown.js\";\n"));
    assert!(index_js.ends_with(
        "export const languages = { yaml: yaml, markdown: markdown, javascript: javascript, css: css, html: html };\n"
    ));
}

#[test]
fn module_source_examples() {
    let stub = CodemirrorVendor::module_source("@codemirror/state");
    assert_eq!(stub.fetch_url, "https://esm.sh/*@codemirror/state@6?target=es2022");
    assert_eq!(stub.source_path, "");
    assert_eq!(stub.out_stem, "codemirror__state");

    let inner = CodemirrorVendor::module_source("/node/process.mjs");
    assert_eq!(inner.fetch_url, "https://esm.sh/node/process.mjs");
    assert_eq!(inner.source_path, "/node/process.mjs");
    assert_eq!(inner.out_stem, "node_process");
}

#[test]
fn module_rewrite_points_imports_at_siblings() {
    let code = [
        "import{a}from\"@codemirror/state\";",
        "import \"/node/process.mjs\";",
        "const b=await import('./chunk.mjs');",
        "x.from(\",\");",
        "export*from\"@codemirror/state\";",
    ]
    .join("");
    let vendored = CodemirrorVendor::module_rewrite("/*@codemirror/view@6/es2022/view.mjs", "/*@codemirror/view@6/es2022/view.mjs", code)
        .unwrap();
    assert_eq!(
        vendored.dep_modules,
        vec![
            "@codemirror/state".to_string(),
            "/node/process.mjs".to_string(),
            "/*@codemirror/view@6/es2022/chunk.mjs".to_string(),
        ]
    );
    assert_eq!(
        vendored.code,
        [
            "import{a}from\"./codemirror__state.js\";",
            "import \"./node_process.js\";",
            "const b=await import('./__codemirror_view_6_es2022_chunk.js');",
            "x.from(\",\");",
            "export*from\"./codemirror__state.js\";",
        ]
        .join("")
    );
}

#[test]
fn module_rewrite_without_imports() {
    let vendored = CodemirrorVendor::module_rewrite("x", "", "let a = 1;".to_string()).unwrap();
    assert!(vendored.dep_modules.is_empty());
    assert_eq!(vendored.code, "let a = 1;");
}

#[test]
fn module_rewrite_refuses_absolute_url_imports() {
    let code = "import{a}from\"@codemirror/state\";import \"https://esm.sh/x.mjs\";".to_string();
    let refused = CodemirrorVendor::module_rewrite("@codemirror/view", "", code);
    assert_eq!(
        refused.err().unwrap(),
        "@codemirror/view: unexpected absolute-URL import \"https://esm.sh/x.mjs\""
    );
}

#[test]
fn module_rewrite_quotes_urls_as_debug_does() {
    let code = "import('http://a\\b');".to_string();
    let refused = CodemirrorVendor::module_rewrite("m", "", code);
    assert_eq!(refused.err().unwrap(), "m: unexpected absolute-URL import \"http://a\\\\b\"");
}

#[test]
fn crawl_visits_each_module_once() {
    let mut crawl = Crawl::new();
    let mut order = Vec::new();
    while let Some(module) = crawl.next_module() {
        if module == "codemirror" {
            crawl.deps_enqueue(vec!["@codemirror/state".to_string(), "/node/a.mjs".to_string(), "/node/a.mjs".to_string()]);
        }
        if module == "/node/a.mjs" {
            crawl.deps_enqueue(vec!["codemirror".to_string(), "/node/b.mjs".to_string()]);
        }
        order.push(module);
    }
    assert_eq!(
        order,
        vec![
            "codemirror",
            "@codemirror/state",
            "@codemirror/view",
            "@codemirror/language",
            "@codemirror/lsp-client",
            "@lezer/highlight",
            "@codemirror/lang-yaml",
            "@codemirror/lang-markdown",
            "@codemirror/lang-javascript",
            "@codemirror/lang-css",
            "@codemirror/lang-html",
            "/node/a.mjs",
            "/node/b.mjs",
        ]
    );
    assert_eq!(crawl.done_count(), 13);
}
