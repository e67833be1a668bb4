//! Where a module is fetched from, and how its imports are rewritten to point
//! at sibling files.

use vstd::prelude::*;
use vstd::string::StringExecFns;

use crate::text::{
    chars_of, contains, contains_pattern, debug_quoted, replace, replace_all, str_debug,
    string_from_chars, string_views, strings_contain,
};
use crate::vendor::names::{
    file_stem_spec, package_spec_spec, path_resolve_spec, path_stem_spec, specifier_is_module_spec,
};
use crate::vendor::CodemirrorVendor;

verus! {

/// The regular expression matching an import specifier: the `"x"` or `'x'`
/// in `from "x"`, `import "x"` and `import("x")`, captured by its first group.
pub open spec fn import_pattern() -> Seq<char> {
    r#"(?:from|import)\s*\(?\s*["']([^"']+)["']"#@
}

/// What the `regex` crate yields for `pattern` over `haystack`: for each
/// match, left to right, the text of the first capture group (`None` for a
/// match in which that group took no part); `None` when `pattern` does not
/// compile.
pub uninterp spec fn regex_group1_captures(pattern: Seq<char>, haystack: Seq<char>) -> Option<
    Seq<Option<Seq<char>>>,
>;

/// The character views of captured texts.
pub open spec fn captures_view(caps: Option<Vec<Option<String>>>) -> Option<Seq<Option<Seq<char>>>> {
    match caps {
        Some(v) => Some(
            v@.map_values(
                |c: Option<String>|
                    match c {
                        Some(t) => Some(t@),
                        None => None,
                    },
            ),
        ),
        None => None,
    }
}

/// `regex::Regex::new(pattern)` followed by `captures_iter(haystack)`, taking
/// group 1 of each match. The result is named, not described: it is
/// [`regex_group1_captures`] of the pattern and the haystack.
#[verifier::external_body]
fn captures_group1(pattern: &str, haystack: &str) -> (caps: Option<Vec<Option<String>>>)
    ensures
        captures_view(caps) == regex_group1_captures(pattern@, haystack@),
{
    match regex::Regex::new(pattern) {
        Ok(re) => Some(
            re.captures_iter(haystack).map(|c| c.get(1).map(|m| m.as_str().to_string())).collect(),
        ),
        Err(_) => None,
    }
}

/// Where a module is fetched from, the esm.sh path its relative imports are
/// resolved against, and the stem of the file it is written to.
pub struct ModuleSource {
    /// URL to download the module from.
    pub fetch_url: String,
    /// The module's own esm.sh path (empty for a bare package name).
    pub source_path: String,
    /// Stem of the vendored file, e.g. `codemirror__state`.
    pub out_stem: String,
}

/// The (fetch URL, source path, file stem) of `module`: an absolute esm.sh
/// path is fetched as it is; a bare package name is fetched as esm.sh's `*`
/// re-export stub (dependencies marked external) of its pinned spec.
pub open spec fn module_source_spec(module: Seq<char>) -> (Seq<char>, Seq<char>, Seq<char>) {
    if module.len() > 0 && module[0] == '/' {
        ("https://esm.sh"@ + module, module, path_stem_spec(module))
    } else {
        (
            "https://esm.sh"@ + "/*"@ + package_spec_spec(module) + "?target=es2022"@,
            Seq::empty(),
            file_stem_spec(module),
        )
    }
}

/// The crawl entry and sibling-file stem an import `specifier` resolves to,
/// for a module at `source_path`: relative specifiers resolve against it,
/// absolute paths stand as they are, bare names are packages.
pub open spec fn dep_of(source_path: Seq<char>, specifier: Seq<char>) -> (Seq<char>, Seq<char>) {
    if specifier[0] == '.' {
        let resolved = path_resolve_spec(source_path, specifier);
        (resolved, path_stem_spec(resolved))
    } else if specifier[0] == '/' {
        (specifier, path_stem_spec(specifier))
    } else {
        (specifier, file_stem_spec(specifier))
    }
}

/// The error for an import of an absolute URL, which would leave the vendored
/// tree depending on a remote host: the module, then the specifier as std's
/// `Debug` writes it.
pub open spec fn absolute_url_error(module: Seq<char>, specifier: Seq<char>) -> Seq<char> {
    module + ": unexpected absolute-URL import "@ + debug_quoted(specifier)
}

/// `code` with the quoted `specifier` (in double or single quotes) pointing
/// at the sibling file `./<stem>.js`.
pub open spec fn import_rewritten(code: Seq<char>, specifier: Seq<char>, stem: Seq<char>) -> Seq<
    char,
> {
    let sibling = "./"@ + stem + ".js"@;
    replace_all(
        replace_all(code, "\""@ + specifier + "\""@, "\""@ + sibling + "\""@),
        "'"@ + specifier + "'"@,
        "'"@ + sibling + "'"@,
    )
}

/// One captured import applied to the (code, dependencies) state: an
/// absolute URL is an error; anything else that is not a plausible module
/// specifier is ignored; otherwise the dependency is recorded once and the
/// import pointed at its sibling file.
pub open spec fn import_step(
    module: Seq<char>,
    source_path: Seq<char>,
    state: (Seq<char>, Seq<Seq<char>>),
    capture: Option<Seq<char>>,
) -> Result<(Seq<char>, Seq<Seq<char>>), Seq<char>> {
    match capture {
        None => Ok(state),
        Some(specifier) => if contains_pattern(specifier, "://"@) {
            Err(absolute_url_error(module, specifier))
        } else if !specifier_is_module_spec(specifier) {
            Ok(state)
        } else {
            let (dep, stem) = dep_of(source_path, specifier);
            let deps = if state.1.contains(dep) {
                state.1
            } else {
                state.1.push(dep)
            };
            Ok((import_rewritten(state.0, specifier, stem), deps))
        },
    }
}

/// The captured imports applied in order, stopping at the first error.
pub open spec fn import_fold(
    module: Seq<char>,
    source_path: Seq<char>,
    state: (Seq<char>, Seq<Seq<char>>),
    captures: Seq<Option<Seq<char>>>,
) -> Result<(Seq<char>, Seq<Seq<char>>), Seq<char>>
    decreases captures.len(),
{
    if captures.len() == 0 {
        Ok(state)
    } else {
        match import_step(module, source_path, state, captures[0]) {
            Ok(next) => import_fold(module, source_path, next, captures.skip(1)),
            Err(e) => Err(e),
        }
    }
}

/// The error when the import pattern does not compile.
pub open spec fn pattern_error() -> Seq<char> {
    "the import pattern does not compile"@
}

/// The rewritten code of `module` and the modules it imports, or the error
/// that stops vendoring it.
pub open spec fn module_rewrite_spec(module: Seq<char>, source_path: Seq<char>, code: Seq<char>) -> Result<
    (Seq<char>, Seq<Seq<char>>),
    Seq<char>,
> {
    match regex_group1_captures(import_pattern(), code) {
        Some(caps) => import_fold(module, source_path, (code, Seq::empty()), caps),
        None => Err(pattern_error()),
    }
}

/// Result of vendoring one module: its rewritten code and the modules it
/// imports, enqueued so the crawl reaches the whole dependency closure.
pub struct ModuleVendored {
    /// Modules to enqueue for crawling (bare names or absolute esm.sh paths),
    /// each once, in order of first import.
    pub dep_modules: Vec<String>,
    /// The module's code with each import pointing at its sibling file.
    pub code: String,
}

/// The first captured text that names an absolute URL, if any.
pub open spec fn first_url(captures: Seq<Option<Seq<char>>>) -> Option<Seq<char>>
    decreases captures.len(),
{
    if captures.len() == 0 {
        None
    } else if captures[0] is Some && contains_pattern(captures[0]->0, "://"@) {
        captures[0]
    } else {
        first_url(captures.skip(1))
    }
}

/// Applying captured imports stops at the first absolute URL, with its error;
/// without one it succeeds and records every dependency at most once.
pub proof fn lemma_import_fold_urls(
    module: Seq<char>,
    source_path: Seq<char>,
    state: (Seq<char>, Seq<Seq<char>>),
    captures: Seq<Option<Seq<char>>>,
)
    requires
        state.1.no_duplicates(),
    ensures
        match first_url(captures) {
            Some(url) => import_fold(module, source_path, state, captures) == Err::<
                (Seq<char>, Seq<Seq<char>>),
                Seq<char>,
            >(absolute_url_error(module, url)),
            None => import_fold(module, source_path, state, captures) matches Ok(r)
                && r.1.no_duplicates(),
        },
    decreases captures.len(),
{
    if captures.len() > 0 {
        if !(captures[0] is Some && contains_pattern(captures[0]->0, "://"@)) {
            let next = import_step(module, source_path, state, captures[0])->Ok_0;
            lemma_import_fold_urls(module, source_path, next, captures.skip(1));
        }
    }
}

/// A vendored module never depends on a remote URL: vendoring succeeds
/// exactly when the import pattern compiles and no captured import names an
/// absolute URL, and at the first such import it fails with that import's
/// error. On success every dependency is listed exactly once.
pub proof fn lemma_module_rewrite_self_contained(
    module: Seq<char>,
    source_path: Seq<char>,
    code: Seq<char>,
)
    ensures
        module_rewrite_spec(module, source_path, code) is Ok <==> (regex_group1_captures(
            import_pattern(),
            code,
        ) matches Some(caps) && first_url(caps) is None),
        regex_group1_captures(import_pattern(), code) matches Some(caps) ==> (first_url(caps) matches Some(url)
            ==> module_rewrite_spec(module, source_path, code) == Err::<
            (Seq<char>, Seq<Seq<char>>),
            Seq<char>,
        >(absolute_url_error(module, url))),
        module_rewrite_spec(module, source_path, code) matches Ok(r) ==> r.1.no_duplicates(),
{
    if let Some(caps) = regex_group1_captures(import_pattern(), code) {
        lemma_import_fold_urls(module, source_path, (code, Seq::empty()), caps);
    }
}

impl CodemirrorVendor {
    /// Where `module` is fetched from, the esm.sh path its relative imports
    /// resolve against, and its file stem.
    ///
    /// `module` is either a bare package name (e.g. `@codemirror/state`),
    /// fetched as esm.sh's `*` re-export stub, or an absolute esm.sh path
    /// (e.g. `/node/process.mjs`) for the inner modules, polyfills and chunks
    /// discovered while crawling.
    pub fn module_source(module: &str) -> (source: ModuleSource)
        ensures
            (source.fetch_url@, source.source_path@, source.out_stem@) == module_source_spec(
                module@,
            ),
    {
        let chars = chars_of(module);
        if chars.len() > 0 && chars[0] == '/' {
            ModuleSource {
                fetch_url: String::from_str("https://esm.sh").concat(module),
                source_path: String::from_str(module),
                out_stem: Self::path_stem(module),
            }
        } else {
            let spec = Self::package_spec(module);
            let fetch_url = String::from_str("https://esm.sh").concat("/*").concat(
                spec.as_str(),
            ).concat("?target=es2022");
            ModuleSource {
                fetch_url,
                source_path: String::new(),
                out_stem: Self::file_stem(module),
            }
        }
    }

    /// Rewrites the downloaded `code` of `module` so each import points at a
    /// sibling file, and returns it with the modules it imports.
    ///
    /// `source_path` is the module's own esm.sh path, against which relative
    /// imports resolve. An import of an absolute URL is an error, so the
    /// vendored tree stays self-contained; other matches of the import pattern
    /// that are not plausible module specifiers are ignored.
    pub fn module_rewrite(module: &str, source_path: &str, code: String) -> (vendored: Result<
        ModuleVendored,
        String,
    >)
        ensures
            match vendored {
                Ok(v) => module_rewrite_spec(module@, source_path@, code@) == Ok::<
                    (Seq<char>, Seq<Seq<char>>),
                    Seq<char>,
                >((v.code@, string_views(v.dep_modules@))),
                Err(e) => module_rewrite_spec(module@, source_path@, code@) == Err::<
                    (Seq<char>, Seq<Seq<char>>),
                    Seq<char>,
                >(e@),
            },
    {
        let captures = match captures_group1(
            r#"(?:from|import)\s*\(?\s*["']([^"']+)["']"#,
            code.as_str(),
        ) {
            Some(captures) => captures,
            None => {
                return Err(String::from_str("the import pattern does not compile"));
            },
        };
        let ghost caps = captures_view(Some(captures)).unwrap();
        let ghost code0 = code@;
        let mut code_chars = chars_of(code.as_str());
        let mut dep_modules: Vec<String> = Vec::new();
        let scheme = chars_of("://");
        let mut i: usize = 0;
        assert(caps.skip(0) =~= caps);
        assert(string_views(dep_modules@) =~= Seq::<Seq<char>>::empty());
        while i < captures.len()
            invariant
                i <= captures@.len(),
                caps == captures_view(Some(captures)).unwrap(),
                regex_group1_captures(import_pattern(), code@) == Some(caps),
                code0 == code@,
                scheme@ == "://"@,
                import_fold(module@, source_path@, (code_chars@, string_views(dep_modules@)), caps.skip(i as int))
                    == import_fold(module@, source_path@, (code0, Seq::empty()), caps),
            decreases captures.len() - i,
        {
            let ghost state = (code_chars@, string_views(dep_modules@));
            assert(caps.skip(i as int)[0] == caps[i as int]);
            assert(caps.skip(i as int).skip(1) =~= caps.skip(i + 1));
            match &captures[i] {
                None => {},
                Some(specifier) => {
                    assert(caps[i as int] == Some(specifier@));
                    let spec_chars = chars_of(specifier.as_str());
                    if contains(&spec_chars, &scheme) {
                        let quoted = str_debug(specifier.as_str());
                        let mut message = String::from_str(module);
                        message.append(": unexpected absolute-URL import ");
                        message.append(quoted.as_str());
                        assert(message@ =~= absolute_url_error(module@, specifier@));
                        assert(import_step(module@, source_path@, state, caps[i as int]) == Err::<
                            (Seq<char>, Seq<Seq<char>>),
                            Seq<char>,
                        >(message@));
                        assert(import_fold(module@, source_path@, state, caps.skip(i as int)) == Err::<
                            (Seq<char>, Seq<Seq<char>>),
                            Seq<char>,
                        >(message@));
                        assert(regex_group1_captures(import_pattern(), code@) == Some(caps));
                        return Err(message);
                    }
                    if Self::specifier_is_module(specifier.as_str()) {
                        let (dep, dep_stem) = if spec_chars[0] == '.' {
                            let resolved = Self::path_resolve(source_path, specifier.as_str());
                            let stem = Self::path_stem(resolved.as_str());
                            (resolved, stem)
                        } else if spec_chars[0] == '/' {
                            (specifier.clone(), Self::path_stem(specifier.as_str()))
                        } else {
                            (specifier.clone(), Self::file_stem(specifier.as_str()))
                        };
                        if !strings_contain(&dep_modules, &dep) {
                            dep_modules.push(dep);
                            assert(string_views(dep_modules@) =~= state.1.push(
                                dep_modules@.last()@,
                            ));
                        }
                        let mut sibling = String::from_str("./");
                        sibling.append(dep_stem.as_str());
                        sibling.append(".js");
                        let mut dq_from = String::from_str("\"");
                        dq_from.append(specifier.as_str());
                        dq_from.append("\"");
                        let mut dq_to = String::from_str("\"");
                        dq_to.append(sibling.as_str());
                        dq_to.append("\"");
                        let mut sq_from = String::from_str("'");
                        sq_from.append(specifier.as_str());
                        sq_from.append("'");
                        let mut sq_to = String::from_str("'");
                        sq_to.append(sibling.as_str());
                        sq_to.append("'");
                        let dq_from_chars = chars_of(dq_from.as_str());
                        let sq_from_chars = chars_of(sq_from.as_str());
                        proof {
                            reveal_strlit("\"");
                            reveal_strlit("'");
                        }
                        let once = replace(&code_chars, &dq_from_chars, &chars_of(dq_to.as_str()));
                        code_chars = replace(&once, &sq_from_chars, &chars_of(sq_to.as_str()));
                    }
                },
            }
            i = i + 1;
        }
        Ok(ModuleVendored { dep_modules, code: string_from_chars(&code_chars) })
    }
}

} // verus!
