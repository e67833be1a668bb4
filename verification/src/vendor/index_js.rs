//! The vendored packages and the generated `index.js` entry.

use vstd::prelude::*;
use vstd::string::StringExecFns;

use crate::text::{contains_pattern, occurs_at};
use crate::vendor::names::file_stem_spec;
use crate::language::{language_name, Language};
use crate::vendor::CodemirrorVendor;

verus! {

/// One vendored syntax-highlighting language: its esm.sh package, e.g.
/// `@codemirror/lang-yaml`, and its name, e.g. `yaml` -- the JS export, the
/// `Language` wire name and the key in the generated `languages` map.
pub struct LanguageEntry {
    /// esm.sh package, e.g. `@codemirror/lang-yaml`.
    pub package: &'static str,
    /// JS export / `Language` wire name / `languages` map key, e.g. `yaml`.
    pub name: &'static str,
}

/// The vendored languages, as (package, name) pairs, in order.
pub open spec fn languages_spec() -> Seq<(Seq<char>, Seq<char>)> {
    seq![
        ("@codemirror/lang-yaml"@, "yaml"@),
        ("@codemirror/lang-markdown"@, "markdown"@),
        ("@codemirror/lang-javascript"@, "javascript"@),
        ("@codemirror/lang-css"@, "css"@),
        ("@codemirror/lang-html"@, "html"@),
    ]
}

/// The packages the glue script always needs, regardless of language.
pub open spec fn core_entries_spec() -> Seq<Seq<char>> {
    seq![
        "codemirror"@,
        "@codemirror/state"@,
        "@codemirror/view"@,
        "@codemirror/language"@,
        "@codemirror/lsp-client"@,
        "@lezer/highlight"@,
    ]
}

/// The (package, name) pair of a language entry.
pub open spec fn entry_view(entry: LanguageEntry) -> (Seq<char>, Seq<char>) {
    (entry.package@, entry.name@)
}

/// The languages vendored into the superset: every `Language` variant has an
/// entry whose name is its wire name.
pub fn languages() -> (langs: Vec<LanguageEntry>)
    ensures
        langs@.map_values(|e: LanguageEntry| entry_view(e)) == languages_spec(),
{
    let langs = vec![
        LanguageEntry { package: "@codemirror/lang-yaml", name: "yaml" },
        LanguageEntry { package: "@codemirror/lang-markdown", name: "markdown" },
        LanguageEntry { package: "@codemirror/lang-javascript", name: "javascript" },
        LanguageEntry { package: "@codemirror/lang-css", name: "css" },
        LanguageEntry { package: "@codemirror/lang-html", name: "html" },
    ];
    assert(langs@.map_values(|e: LanguageEntry| entry_view(e)) =~= languages_spec());
    langs
}

/// The packages the glue script always needs, regardless of language. Their
/// exported symbols are re-exported by the generated `index.js`; the crawl
/// discovers transitive dependencies.
pub fn core_entries() -> (entries: Vec<&'static str>)
    ensures
        entries@.map_values(|e: &'static str| e@) == core_entries_spec(),
{
    let entries = vec![
        "codemirror",
        "@codemirror/state",
        "@codemirror/view",
        "@codemirror/language",
        "@codemirror/lsp-client",
        "@lezer/highlight",
    ];
    assert(entries@.map_values(|e: &'static str| e@) =~= core_entries_spec());
    entries
}

/// Every language the editor can be asked for is vendored: the wire name of
/// each `Language` is the name of a vendored entry, so the glue script finds
/// it in the generated `languages` map.
pub proof fn lemma_every_language_vendored(language: Language)
    ensures
        exists|i: int|
            0 <= i < languages_spec().len() && (#[trigger] languages_spec()[i]).1
                == language_name(language),
{
    let l = languages_spec();
    match language {
        Language::Yaml => assert(l[0].1 == language_name(language)),
        Language::Markdown => assert(l[1].1 == language_name(language)),
        Language::Javascript => assert(l[2].1 == language_name(language)),
        Language::Css => assert(l[3].1 == language_name(language)),
        Language::Html => assert(l[4].1 == language_name(language)),
    }
}

/// The fixed part of the generated `index.js`: a header comment and the
/// re-exports of the core symbols the glue script uses.
pub open spec fn index_js_head() -> Seq<char> {
    "// Generated by `cargo run -p xtask -- vendor`. Do not edit.\n"@
        + "//\n\
             // Imports every vendored language. The whole superset ships because Dioxus\n\
             // cannot yet serve a build-script-generated, per-feature asset folder from\n\
             // `OUT_DIR` -- see https://github.com/DioxusLabs/dioxus/issues/4426. Once that\n\
             // lands, this entry can be trimmed to the enabled `lang-*` features again.\n"@
        + "export { EditorView, minimalSetup } from \"./codemirror.js\";\n"@
        + "export { EditorState, EditorSelection, Annotation } from \"./codemirror__state.js\";\n"@
        + "export { lineNumbers, highlightActiveLineGutter, highlightActiveLine, \
             highlightWhitespace, rectangularSelection, crosshairCursor, keymap, \
             Decoration, ViewPlugin } \
             from \"./codemirror__view.js\";\n"@
        + "export { HighlightStyle, syntaxHighlighting, bracketMatching, indentOnInput, \
             foldGutter, foldKeymap, codeFolding, foldable, foldEffect, unfoldAll, indentUnit } \
             from \"./codemirror__language.js\";\n"@
        + "export { SearchCursor } from \"./codemirror__search.js\";\n"@
        + "export { closeBrackets, closeBracketsKeymap } from \"./codemirror__autocomplete.js\";\n"@
        + "export { indentWithTab } from \"./codemirror__commands.js\";\n"@
        + "export { tags } from \"./lezer__highlight.js\";\n"@
        + "export { LSPClient, LSPPlugin, languageServerExtensions } \
             from \"./codemirror__lsp-client.js\";\n"@
}

/// One import line per language, e.g.
/// `import { yaml } from "./codemirror__lang-yaml.js";`.
pub open spec fn language_imports(langs: Seq<(Seq<char>, Seq<char>)>) -> Seq<char>
    decreases langs.len(),
{
    if langs.len() == 0 {
        Seq::empty()
    } else {
        language_imports(langs.drop_last()) + "import { "@ + langs.last().1 + " } from \"./"@
            + file_stem_spec(langs.last().0) + ".js\";\n"@
    }
}

/// The entries of the `languages` map, e.g. ` yaml: yaml, markdown: markdown`.
pub open spec fn language_map_entries(langs: Seq<(Seq<char>, Seq<char>)>) -> Seq<char>
    decreases langs.len(),
{
    if langs.len() == 0 {
        Seq::empty()
    } else {
        language_map_entries(langs.drop_last()) + (if langs.len() > 1 {
            ","@
        } else {
            Seq::empty()
        }) + " "@ + langs.last().1 + ": "@ + langs.last().1
    }
}

/// The generated `index.js`: the fixed head, an import of every vendored
/// language, and a `languages` map of them keyed by name.
pub open spec fn index_js_spec() -> Seq<char> {
    index_js_head() + language_imports(languages_spec()) + "export const languages = {"@
        + language_map_entries(languages_spec()) + " };\n"@
}

/// The re-exports the glue script relies on, each line naming the core
/// symbols it takes from one vendored package file.
pub open spec fn core_exports() -> Seq<Seq<char>> {
    seq![
        "export { EditorView, minimalSetup } from \"./codemirror.js\";\n"@,
        "export { EditorState, EditorSelection, Annotation } from \"./codemirror__state.js\";\n"@,
        "export { lineNumbers, highlightActiveLineGutter, highlightActiveLine, \
             highlightWhitespace, rectangularSelection, crosshairCursor, keymap, \
             Decoration, ViewPlugin } \
             from \"./codemirror__view.js\";\n"@,
        "export { HighlightStyle, syntaxHighlighting, bracketMatching, indentOnInput, \
             foldGutter, foldKeymap, codeFolding, foldable, foldEffect, unfoldAll, indentUnit } \
             from \"./codemirror__language.js\";\n"@,
        "export { SearchCursor } from \"./codemirror__search.js\";\n"@,
        "export { closeBrackets, closeBracketsKeymap } from \"./codemirror__autocomplete.js\";\n"@,
        "export { indentWithTab } from \"./codemirror__commands.js\";\n"@,
        "export { tags } from \"./lezer__highlight.js\";\n"@,
        "export { LSPClient, LSPPlugin, languageServerExtensions } \
             from \"./codemirror__lsp-client.js\";\n"@,
    ]
}

/// A text containing a pattern still contains it with more text after it, and
/// a text ending in the pattern contains it.
proof fn lemma_contains_extend()
    ensures
        forall|s: Seq<char>, t: Seq<char>, p: Seq<char>|
            contains_pattern(s, p) ==> #[trigger] contains_pattern(s + t, p),
        forall|s: Seq<char>, p: Seq<char>| #[trigger] contains_pattern(s + p, p),
        forall|s: Seq<char>, t: Seq<char>, p: Seq<char>|
            contains_pattern(t, p) ==> #[trigger] contains_pattern(s + t, p),
{
    assert forall|s: Seq<char>, t: Seq<char>, p: Seq<char>|
        contains_pattern(s, p) implies #[trigger] contains_pattern(s + t, p) by {
        let at = choose|at: int| occurs_at(s, p, at);
        assert((s + t).subrange(at, at + p.len()) =~= s.subrange(at, at + p.len()));
        assert(occurs_at(s + t, p, at));
    }
    assert forall|s: Seq<char>, t: Seq<char>, p: Seq<char>|
        contains_pattern(t, p) implies #[trigger] contains_pattern(s + t, p) by {
        let at = choose|at: int| occurs_at(t, p, at);
        assert((s + t).subrange(s.len() + at, s.len() + at + p.len()) =~= t.subrange(at, at + p.len()));
        assert(occurs_at(s + t, p, s.len() + at));
    }
    assert forall|s: Seq<char>, p: Seq<char>| #[trigger] contains_pattern(s + p, p) by {
        assert((s + p).subrange(s.len() as int, (s.len() + p.len()) as int) =~= p);
        assert(occurs_at(s + p, p, s.len() as int));
    }
}

/// The generated `index.js` re-exports every core symbol the glue script
/// uses, each from its package's vendored file, e.g. it holds the line
/// `export { EditorState, EditorSelection, Annotation } from "./codemirror__state.js";`.
pub proof fn lemma_index_js_core_exports()
    ensures
        forall|i: int|
            0 <= i < core_exports().len() ==> contains_pattern(
                index_js_spec(),
                #[trigger] core_exports()[i],
            ),
{
    lemma_contains_extend();
    assert(contains_pattern(index_js_spec(), core_exports()[0]));
    assert(contains_pattern(index_js_spec(), core_exports()[1]));
    assert(contains_pattern(index_js_spec(), core_exports()[2]));
    assert(contains_pattern(index_js_spec(), core_exports()[3]));
    assert(contains_pattern(index_js_spec(), core_exports()[4]));
    assert(contains_pattern(index_js_spec(), core_exports()[5]));
    assert(contains_pattern(index_js_spec(), core_exports()[6]));
    assert(contains_pattern(index_js_spec(), core_exports()[7]));
    assert(contains_pattern(index_js_spec(), core_exports()[8]));
}

/// The import line of the language `name` from its package's vendored file.
pub open spec fn language_import_line(package: Seq<char>, name: Seq<char>) -> Seq<char> {
    "import { "@ + name + " } from \"./"@ + file_stem_spec(package) + ".js\";\n"@
}

/// Every language of `langs` has its import line.
proof fn lemma_language_imports_contain(langs: Seq<(Seq<char>, Seq<char>)>, i: int)
    requires
        0 <= i < langs.len(),
    ensures
        contains_pattern(language_imports(langs), language_import_line(langs[i].0, langs[i].1)),
    decreases langs.len(),
{
    lemma_contains_extend();
    let init = langs.drop_last();
    let line = language_import_line(langs.last().0, langs.last().1);
    assert(language_imports(langs) =~= language_imports(init) + line);
    if i < langs.len() - 1 {
        lemma_language_imports_contain(init, i);
        assert(init[i] == langs[i]);
    }
}

/// Every language of `langs` has its `name: name` entry in the map.
proof fn lemma_language_map_contains(langs: Seq<(Seq<char>, Seq<char>)>, i: int)
    requires
        0 <= i < langs.len(),
    ensures
        contains_pattern(
            language_map_entries(langs),
            " "@ + langs[i].1 + ": "@ + langs[i].1,
        ),
    decreases langs.len(),
{
    lemma_contains_extend();
    let init = langs.drop_last();
    let n = langs.last().1;
    let sep: Seq<char> = if langs.len() > 1 {
        ","@
    } else {
        Seq::empty()
    };
    assert(language_map_entries(langs) =~= (language_map_entries(init) + sep) + (" "@ + n + ": "@
        + n));
    if i < langs.len() - 1 {
        lemma_language_map_contains(init, i);
        assert(init[i] == langs[i]);
    }
}

/// The generated `index.js` imports every vendored language from its
/// package's file and lists it, keyed by its name, in the `languages` map.
pub proof fn lemma_index_js_languages(i: int)
    requires
        0 <= i < languages_spec().len(),
    ensures
        contains_pattern(
            index_js_spec(),
            "import { "@ + languages_spec()[i].1 + " } from \"./"@ + file_stem_spec(
                languages_spec()[i].0,
            ) + ".js\";\n"@,
        ),
        contains_pattern(
            index_js_spec(),
            " "@ + languages_spec()[i].1 + ": "@ + languages_spec()[i].1,
        ),
{
    lemma_contains_extend();
    let ls = languages_spec();
    lemma_language_imports_contain(ls, i);
    lemma_language_map_contains(ls, i);
    let a = index_js_head() + language_imports(ls) + "export const languages = {"@;
    assert(index_js_spec() == a + language_map_entries(ls) + " };\n"@);
    assert(contains_pattern(a + language_map_entries(ls), " "@ + ls[i].1 + ": "@ + ls[i].1));
}

impl CodemirrorVendor {
    /// The `index.js` entry served as the folder asset.
    ///
    /// It re-exports the fixed core symbols and imports every vendored
    /// language into a `languages` map keyed by name, which the glue script
    /// looks up. The whole superset is included regardless of the enabled
    /// `lang-*` features.
    pub fn index_js_content() -> (index_js: String)
        ensures
            index_js@ == index_js_spec(),
    {
        let mut index_js = String::new();
        index_js.append(
            "// Generated by `cargo run -p xtask -- vendor`. Do not edit.\n",
        );
        index_js.append(
            "//\n\
             // Imports every vendored language. The whole superset ships because Dioxus\n\
             // cannot yet serve a build-script-generated, per-feature asset folder from\n\
             // `OUT_DIR` -- see https://github.com/DioxusLabs/dioxus/issues/4426. Once that\n\
             // lands, this entry can be trimmed to the enabled `lang-*` features again.\n",
        );
        index_js.append(
            "export { EditorView, minimalSetup } from \"./codemirror.js\";\n",
        );
        index_js.append(
            "export { EditorState, EditorSelection, Annotation } from \"./codemirror__state.js\";\n",
        );
        index_js.append(
            "export { lineNumbers, highlightActiveLineGutter, highlightActiveLine, \
             highlightWhitespace, rectangularSelection, crosshairCursor, keymap, \
             Decoration, ViewPlugin } \
             from \"./codemirror__view.js\";\n",
        );
        index_js.append(
            "export { HighlightStyle, syntaxHighlighting, bracketMatching, indentOnInput, \
             foldGutter, foldKeymap, codeFolding, foldable, foldEffect, unfoldAll, indentUnit } \
             from \"./codemirror__language.js\";\n",
        );
        index_js.append(
            "export { SearchCursor } from \"./codemirror__search.js\";\n",
        );
        index_js.append(
            "export { closeBrackets, closeBracketsKeymap } from \"./codemirror__autocomplete.js\";\n",
        );
        index_js.append(
            "export { indentWithTab } from \"./codemirror__commands.js\";\n",
        );
        index_js.append(
            "export { tags } from \"./lezer__highlight.js\";\n",
        );
        index_js.append(
            "export { LSPClient, LSPPlugin, languageServerExtensions } \
             from \"./codemirror__lsp-client.js\";\n",
        );
        let langs = languages();
        let ghost ls = languages_spec();
        let mut i: usize = 0;
        assert(ls.take(0) =~= Seq::<(Seq<char>, Seq<char>)>::empty());
        while i < langs.len()
            invariant
                i <= langs@.len(),
                langs@.map_values(|e: LanguageEntry| entry_view(e)) == ls,
                index_js@ == index_js_head() + language_imports(ls.take(i as int)),
            decreases langs.len() - i,
        {
            let lang = &langs[i];
            assert(ls.take(i + 1).drop_last() =~= ls.take(i as int));
            assert(ls.take(i + 1).last() == entry_view(langs@[i as int]));
            index_js.append("import { ");
            index_js.append(lang.name);
            index_js.append(" } from \"./");
            index_js.append(Self::file_stem(lang.package).as_str());
            index_js.append(".js\";\n");
            i = i + 1;
        }
        assert(ls.take(ls.len() as int) =~= ls);
        index_js.append("export const languages = {");
        let ghost before = index_js@;
        let mut i: usize = 0;
        while i < langs.len()
            invariant
                i <= langs@.len(),
                langs@.map_values(|e: LanguageEntry| entry_view(e)) == ls,
                index_js@ == before + language_map_entries(ls.take(i as int)),
            decreases langs.len() - i,
        {
            let lang = &langs[i];
            assert(ls.take(i + 1).drop_last() =~= ls.take(i as int));
            assert(ls.take(i + 1).last() == entry_view(langs@[i as int]));
            if i > 0 {
                index_js.append(",");
            }
            index_js.append(" ");
            index_js.append(lang.name);
            index_js.append(": ");
            index_js.append(lang.name);
            i = i + 1;
        }
        index_js.append(" };\n");
        index_js
    }
}

} // verus!
