use vstd::prelude::*;

verus! {

/// Syntax highlighting language for an editor.
///
/// Crosses the wire as its lowercase name (see [`language_name`]), which the
/// glue script looks up in the vendored `languages` map, e.g. `Language::Yaml`
/// becomes `"yaml"`. Each variant maps to a CodeMirror `@codemirror/lang-*`
/// package.
#[derive(Clone, Copy, Debug, PartialEq, Eq, Structural)]
pub enum Language {
    /// YAML, e.g. `name: example`. Uses `@codemirror/lang-yaml`.
    Yaml,
    /// Markdown, e.g. `# Heading`. Uses `@codemirror/lang-markdown`.
    Markdown,
    /// JavaScript, e.g. `const x = 1;`. Uses `@codemirror/lang-javascript`.
    Javascript,
    /// CSS, e.g. `a { color: red; }`. Uses `@codemirror/lang-css`.
    Css,
    /// HTML, e.g. `<p>hi</p>`. Uses `@codemirror/lang-html`.
    Html,
}

/// The lowercase wire name of `language`: the key the glue script looks up in
/// the vendored `languages` map.
pub open spec fn language_name(language: Language) -> Seq<char> {
    match language {
        Language::Yaml => "yaml"@,
        Language::Markdown => "markdown"@,
        Language::Javascript => "javascript"@,
        Language::Css => "css"@,
        Language::Html => "html"@,
    }
}

} // verus!
