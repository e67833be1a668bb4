//! Module specifiers, package fetch specs, file stems and path resolution.

use vstd::prelude::*;
use vstd::string::StringExecFns;

use crate::text::{
    ascii_alnum, chars_eq, chars_of, has_prefix, is_ascii_alnum, join, lemma_join_push, replace,
    replace_all, starts_with, string_from_chars,
};
use crate::vendor::CodemirrorVendor;

verus! {

/// Whether `c` may appear in a module specifier.
pub open spec fn is_specifier_char(c: char) -> bool {
    is_ascii_alnum(c) || c == '.' || c == '/' || c == '@' || c == '-' || c == '_' || c == '*'
}

/// Whether `specifier` looks like a real module specifier: it starts with
/// `.`, `/`, `@` or an ASCII letter or digit, and holds only specifier
/// characters.
pub open spec fn specifier_is_module_spec(specifier: Seq<char>) -> bool {
    &&& specifier.len() > 0
    &&& {
        let first = specifier[0];
        first == '.' || first == '/' || first == '@' || is_ascii_alnum(first)
    }
    &&& forall|i: int| 0 <= i < specifier.len() ==> is_specifier_char(#[trigger] specifier[i])
}

/// `s` without its leading run of `c`.
pub open spec fn trim_start_char(s: Seq<char>, c: char) -> Seq<char>
    decreases s.len(),
{
    if s.len() > 0 && s[0] == c {
        trim_start_char(s.skip(1), c)
    } else {
        s
    }
}

/// `s` with the non-empty `suffix` repeatedly removed from its end.
pub open spec fn trim_end_pattern(s: Seq<char>, suffix: Seq<char>) -> Seq<char>
    decreases s.len(),
{
    if suffix.len() > 0 && suffix.len() <= s.len() && s.skip(s.len() - suffix.len()) == suffix {
        trim_end_pattern(s.take(s.len() - suffix.len()), suffix)
    } else {
        s
    }
}

/// A character of a file stem: ASCII letters, digits and `-` stay, anything
/// else becomes `_`.
pub open spec fn stem_char(c: char) -> char {
    if is_ascii_alnum(c) || c == '-' {
        c
    } else {
        '_'
    }
}

/// The file stem for an absolute esm.sh path: without leading `/` and
/// trailing `.mjs`, other characters than ASCII letters, digits and `-`
/// replaced by `_`.
pub open spec fn path_stem_spec(path: Seq<char>) -> Seq<char> {
    trim_end_pattern(trim_start_char(path, '/'), ".mjs"@).map_values(|c: char| stem_char(c))
}

/// The file stem for a package name: without leading `@`, each `/` replaced
/// by `__`.
pub open spec fn file_stem_spec(name: Seq<char>) -> Seq<char> {
    replace_all(trim_start_char(name, '@'), "/"@, "__"@)
}

/// The esm.sh fetch spec for a bare package name: a pinned version where a
/// bare major range resolves incorrectly, else `@6` for `@codemirror/`
/// packages, `@1` for `@lezer/` packages, and the name as it is otherwise.
pub open spec fn package_spec_spec(name: Seq<char>) -> Seq<char> {
    if name == "codemirror"@ {
        "codemirror@6.0.2"@
    } else if name == "@codemirror/lang-yaml"@ {
        "@codemirror/lang-yaml@6.1.3"@
    } else if name == "@codemirror/lang-markdown"@ {
        "@codemirror/lang-markdown@6.5.0"@
    } else if name == "@codemirror/lsp-client"@ {
        "@codemirror/lsp-client@6.2.4"@
    } else if has_prefix(name, "@codemirror/"@) {
        name + "@6"@
    } else if has_prefix(name, "@lezer/"@) {
        name + "@1"@
    } else {
        name
    }
}

/// Index of the first character of `s` at or after `from` that is not `c`.
fn skip_char(s: &Vec<char>, c: char, from: usize) -> (end: usize)
    requires
        from <= s@.len(),
    ensures
        from <= end <= s@.len(),
        trim_start_char(s@.skip(from as int), c) == s@.skip(end as int),
    decreases s@.len() - from,
{
    if from < s.len() && s[from] == c {
        assert(s@.skip(from as int).skip(1) =~= s@.skip(from + 1));
        skip_char(s, c, from + 1)
    } else {
        from
    }
}

/// The part of `path` before its last `/`, or nothing when it has none.
pub open spec fn dir_of(path: Seq<char>) -> Seq<char>
    decreases path.len(),
{
    if path.len() == 0 {
        Seq::empty()
    } else if path.last() == '/' {
        path.drop_last()
    } else {
        dir_of(path.drop_last())
    }
}

/// The pieces of `s` between occurrences of `sep` (`s` alone when `sep` does
/// not occur; empty pieces included).
pub open spec fn split_on(s: Seq<char>, sep: char) -> Seq<Seq<char>>
    decreases s.len(),
{
    if s.len() == 0 {
        seq![Seq::empty()]
    } else {
        let pieces = split_on(s.drop_last(), sep);
        if s.last() == sep {
            pieces.push(Seq::empty())
        } else {
            pieces.update(pieces.len() - 1, pieces.last().push(s.last()))
        }
    }
}

/// The non-empty pieces of `pieces`, in order.
pub open spec fn non_empty(pieces: Seq<Seq<char>>) -> Seq<Seq<char>>
    decreases pieces.len(),
{
    if pieces.len() == 0 {
        Seq::empty()
    } else if pieces.last().len() == 0 {
        non_empty(pieces.drop_last())
    } else {
        non_empty(pieces.drop_last()).push(pieces.last())
    }
}

/// The directory segments `base` after walking the relative segments
/// `steps`: `.` and empty segments stay put, `..` goes up (not above the
/// root), anything else goes down.
pub open spec fn walk(base: Seq<Seq<char>>, steps: Seq<Seq<char>>) -> Seq<Seq<char>>
    decreases steps.len(),
{
    if steps.len() == 0 {
        base
    } else {
        let here = walk(base, steps.drop_last());
        let step = steps.last();
        if step == "."@ || step.len() == 0 {
            here
        } else if step == ".."@ {
            if here.len() > 0 {
                here.drop_last()
            } else {
                here
            }
        } else {
            here.push(step)
        }
    }
}

/// The absolute path that the relative `specifier` names from the module at
/// `source_path`, e.g. (`/a/b/c.mjs`, `../d.mjs`) -> `/a/d.mjs`.
pub open spec fn path_resolve_spec(source_path: Seq<char>, specifier: Seq<char>) -> Seq<char> {
    "/"@ + join(
        walk(non_empty(split_on(dir_of(source_path), '/')), split_on(specifier, '/')),
        "/"@,
    )
}

/// The character views of `pieces`.
pub open spec fn views(pieces: Seq<Vec<char>>) -> Seq<Seq<char>> {
    pieces.map_values(|p: Vec<char>| p@)
}

/// Splits `s` at every `sep`.
fn split(s: &Vec<char>, sep: char) -> (pieces: Vec<Vec<char>>)
    ensures
        views(pieces@) == split_on(s@, sep),
{
    let mut pieces: Vec<Vec<char>> = Vec::new();
    let mut current: Vec<char> = Vec::new();
    let mut i: usize = 0;
    assert(s@.take(0) =~= Seq::<char>::empty());
    while i < s.len()
        invariant
            i <= s@.len(),
            views(pieces@).push(current@) == split_on(s@.take(i as int), sep),
        decreases s.len() - i,
    {
        let c = s[i];
        let ghost before = views(pieces@).push(current@);
        assert(s@.take(i + 1).drop_last() =~= s@.take(i as int));
        if c == sep {
            pieces.push(current);
            current = Vec::new();
            assert(views(pieces@).push(current@) =~= before.push(Seq::empty()));
        } else {
            current.push(c);
            assert(views(pieces@).push(current@) =~= before.update(
                before.len() - 1,
                before.last().push(c),
            ));
        }
        i = i + 1;
    }
    assert(s@.take(s@.len() as int) =~= s@);
    pieces.push(current);
    pieces
}

/// Replacing every `/` by `__` leaves no `/`.
proof fn lemma_replace_slash_flat(s: Seq<char>)
    ensures
        !replace_all(s, "/"@, "__"@).contains('/'),
    decreases s.len(),
{
    reveal_strlit("/");
    reveal_strlit("__");
    let r = replace_all(s, "/"@, "__"@);
    if s.len() >= 1 {
        if s.take(1) == "/"@ {
            lemma_replace_slash_flat(s.skip(1));
            let t = replace_all(s.skip(1), "/"@, "__"@);
            assert(r == "__"@ + t);
            if r.contains('/') {
                let k = choose|k: int| 0 <= k < r.len() && r[k] == '/';
                assert(k >= 2 ==> t[k - 2] == '/');
            }
        } else {
            lemma_replace_slash_flat(s.skip(1));
            let t = replace_all(s.skip(1), "/"@, "__"@);
            assert(r == seq![s[0]] + t);
            assert(s[0] != '/') by {
                if s[0] == '/' {
                    assert(s.take(1) =~= "/"@);
                }
            }
            if r.contains('/') {
                let k = choose|k: int| 0 <= k < r.len() && r[k] == '/';
                assert(k >= 1 ==> t[k - 1] == '/');
            }
        }
    }
}

/// Vendored files are siblings: the file stem of a package and of an esm.sh
/// path hold no `/`.
pub proof fn lemma_stems_flat(name: Seq<char>, path: Seq<char>)
    ensures
        !file_stem_spec(name).contains('/'),
        !path_stem_spec(path).contains('/'),
{
    lemma_replace_slash_flat(trim_start_char(name, '@'));
    let p = path_stem_spec(path);
    if p.contains('/') {
        let k = choose|k: int| 0 <= k < p.len() && p[k] == '/';
        let t = trim_end_pattern(trim_start_char(path, '/'), ".mjs"@);
        assert(p[k] == stem_char(t[k]));
    }
}

/// A clean segment: non-empty, and neither `.` nor `..`.
pub open spec fn clean_segment(segment: Seq<char>) -> bool {
    segment.len() > 0 && segment != "."@ && segment != ".."@
}

/// Resolving keeps a path normalised: walking relative steps from clean
/// directory segments yields only clean segments, so a resolved import never
/// holds `.`, `..` or empty segments unless its module's own path did.
pub proof fn lemma_walk_clean(base: Seq<Seq<char>>, steps: Seq<Seq<char>>)
    requires
        forall|i: int| 0 <= i < base.len() ==> clean_segment(#[trigger] base[i]),
    ensures
        forall|i: int|
            0 <= i < walk(base, steps).len() ==> clean_segment(#[trigger] walk(base, steps)[i]),
    decreases steps.len(),
{
    if steps.len() > 0 {
        lemma_walk_clean(base, steps.drop_last());
        let here = walk(base, steps.drop_last());
        let step = steps.last();
        if !(step == "."@ || step.len() == 0) && step == ".."@ && here.len() > 0 {
            assert forall|i: int| 0 <= i < here.drop_last().len() implies clean_segment(
                #[trigger] here.drop_last()[i],
            ) by {
                assert(here.drop_last()[i] == here[i]);
            }
        }
    }
}

/// A module specifier starts with `.`, `/`, `@` or an ASCII letter or digit,
/// and holds nothing but ASCII letters and digits and the characters
/// `.` `/` `@` `-` `_` `*`: so `/node/string_decoder.mjs` and
/// `@codemirror/lang-yaml` are specifiers, while `,`, `a b` and
/// `https://x` are not.
pub proof fn lemma_specifier_characters(s: Seq<char>)
    ensures
        specifier_is_module_spec(s) <==> {
            &&& s.len() > 0
            &&& ('0' <= s[0] <= '9' || 'a' <= s[0] <= 'z' || 'A' <= s[0] <= 'Z' || s[0] == '.'
                || s[0] == '/' || s[0] == '@')
            &&& forall|i: int|
                0 <= i < s.len() ==> ('0' <= #[trigger] s[i] <= '9' || 'a' <= s[i] <= 'z' || 'A'
                    <= s[i] <= 'Z' || s[i] == '.' || s[i] == '/' || s[i] == '@' || s[i] == '-'
                    || s[i] == '_' || s[i] == '*')
        },
{
}

impl CodemirrorVendor {
    /// Whether `specifier` looks like a real module specifier rather than a
    /// false positive of the import pattern (e.g. `.from(",")` in minified
    /// code).
    pub fn specifier_is_module(specifier: &str) -> (b: bool)
        ensures
            b == specifier_is_module_spec(specifier@),
    {
        let chars = chars_of(specifier);
        if chars.len() == 0 {
            return false;
        }
        let first = chars[0];
        if !(first == '.' || first == '/' || first == '@' || ascii_alnum(first)) {
            return false;
        }
        let mut i: usize = 0;
        while i < chars.len()
            invariant
                i <= chars@.len(),
                chars@ == specifier@,
                forall|k: int| 0 <= k < i ==> is_specifier_char(#[trigger] chars@[k]),
            decreases chars.len() - i,
        {
            let c = chars[i];
            if !(ascii_alnum(c) || c == '.' || c == '/' || c == '@' || c == '-' || c == '_' || c
                == '*') {
                return false;
            }
            i = i + 1;
        }
        true
    }

    /// File stem for an absolute esm.sh path, e.g. `/node/events.mjs` ->
    /// `node_events`.
    #[verifier::rlimit(40)]
    pub fn path_stem(path: &str) -> (stem: String)
        ensures
            stem@ == path_stem_spec(path@),
    {
        let chars = chars_of(path);
        let start = skip_char(&chars, '/', 0);
        assert(chars@.skip(0) =~= chars@);
        let mut end: usize = chars.len();
        let ghost suffix = ".mjs"@;
        proof {
            reveal_strlit(".mjs");
            assert(chars@.skip(start as int).take(end - start) =~= chars@.skip(start as int));
        }
        while end - start >= 4 && chars[end - 4] == '.' && chars[end - 3] == 'm' && chars[end - 2]
            == 'j' && chars[end - 1] == 's'
            invariant
                start <= end <= chars@.len(),
                suffix == seq!['.', 'm', 'j', 's'],
                trim_end_pattern(chars@.skip(start as int), suffix) == trim_end_pattern(
                    chars@.subrange(start as int, end as int),
                    suffix,
                ),
            decreases end,
        {
            proof {
                let t = chars@.subrange(start as int, end as int);
                assert(t.skip(t.len() - 4) =~= suffix);
                assert(t.take(t.len() - 4) =~= chars@.subrange(start as int, end - 4));
            }
            end = end - 4;
        }
        proof {
            let t = chars@.subrange(start as int, end as int);
            if t.len() >= 4 {
                assert(t.skip(t.len() - 4) != suffix) by {
                    if t.skip(t.len() - 4) == suffix {
                        assert(t.skip(t.len() - 4)[0] == chars@[end - 4]);
                        assert(t.skip(t.len() - 4)[1] == chars@[end - 3]);
                        assert(t.skip(t.len() - 4)[2] == chars@[end - 2]);
                        assert(t.skip(t.len() - 4)[3] == chars@[end - 1]);
                    }
                }
            }
        }
        let mut out: Vec<char> = Vec::new();
        let mut i: usize = start;
        while i < end
            invariant
                start <= i <= end <= chars@.len(),
                out@ == chars@.subrange(start as int, i as int).map_values(|c: char| stem_char(c)),
            decreases end - i,
        {
            let c = chars[i];
            let d = if ascii_alnum(c) || c == '-' {
                c
            } else {
                '_'
            };
            out.push(d);
            proof {
                assert(chars@.subrange(start as int, i + 1).map_values(|c: char| stem_char(c))
                    =~= chars@.subrange(start as int, i as int).map_values(|c: char| stem_char(c)).push(d));
            }
            i = i + 1;
        }
        string_from_chars(&out)
    }

    /// Resolves a relative `specifier` against the directory of
    /// `source_path`, e.g. (`/a/b/c.mjs`, `../d.mjs`) -> `/a/d.mjs`.
    pub fn path_resolve(source_path: &str, specifier: &str) -> (path: String)
        ensures
            path@ == path_resolve_spec(source_path@, specifier@),
    {
        let src = chars_of(source_path);
        // The directory: everything before the last `/`.
        let mut j: usize = src.len();
        assert(src@.take(j as int) =~= src@);
        while j > 0 && src[j - 1] != '/'
            invariant
                j <= src@.len(),
                dir_of(src@) == dir_of(src@.take(j as int)),
            decreases j,
        {
            assert(src@.take(j as int).drop_last() =~= src@.take(j - 1));
            j = j - 1;
        }
        let mut dir: Vec<char> = Vec::new();
        if j > 0 {
            let mut k: usize = 0;
            while k < j - 1
                invariant
                    0 < j <= src@.len(),
                    k <= j - 1,
                    dir@ == src@.take(k as int),
                decreases j - 1 - k,
            {
                dir.push(src[k]);
                assert(src@.take(k + 1) =~= src@.take(k as int).push(src@[k as int]));
                k = k + 1;
            }
            assert(src@.take(j as int).drop_last() =~= src@.take(j - 1));
        }
        assert(dir@ == dir_of(src@));
        // The directory's non-empty segments.
        let pieces = split(&dir, '/');
        let mut segments: Vec<Vec<char>> = Vec::new();
        let mut k: usize = 0;
        assert(views(pieces@).take(0) =~= Seq::<Seq<char>>::empty());
        while k < pieces.len()
            invariant
                k <= pieces@.len(),
                views(segments@) == non_empty(views(pieces@).take(k as int)),
            decreases pieces.len() - k,
        {
            let ghost before = views(segments@);
            assert(views(pieces@).take(k + 1).drop_last() =~= views(pieces@).take(k as int));
            assert(views(pieces@).take(k + 1).last() == pieces@[k as int]@);
            if pieces[k].len() > 0 {
                segments.push(pieces[k].clone());
                assert(views(segments@) =~= before.push(pieces@[k as int]@));
            }
            k = k + 1;
        }
        assert(views(pieces@).take(pieces@.len() as int) =~= views(pieces@));
        let ghost base = views(segments@);
        // Walk the specifier's segments from there.
        let spec_chars = chars_of(specifier);
        let steps = split(&spec_chars, '/');
        let dot = chars_of(".");
        let dot_dot = chars_of("..");
        let mut k: usize = 0;
        assert(views(steps@).take(0) =~= Seq::<Seq<char>>::empty());
        while k < steps.len()
            invariant
                k <= steps@.len(),
                dot@ == "."@,
                dot_dot@ == ".."@,
                views(segments@) == walk(base, views(steps@).take(k as int)),
            decreases steps.len() - k,
        {
            let ghost before = views(segments@);
            assert(views(steps@).take(k + 1).drop_last() =~= views(steps@).take(k as int));
            assert(views(steps@).take(k + 1).last() == steps@[k as int]@);
            let step = &steps[k];
            if chars_eq(step, &dot) || step.len() == 0 {
            } else if chars_eq(step, &dot_dot) {
                if segments.len() > 0 {
                    segments.pop();
                    assert(views(segments@) =~= before.drop_last());
                }
            } else {
                segments.push(step.clone());
                assert(views(segments@) =~= before.push(steps@[k as int]@));
            }
            k = k + 1;
        }
        assert(views(steps@).take(steps@.len() as int) =~= views(steps@));
        // Join them under the root.
        let mut path = String::from_str("/");
        let mut k: usize = 0;
        assert(views(segments@).take(0) =~= Seq::<Seq<char>>::empty());
        while k < segments.len()
            invariant
                k <= segments@.len(),
                path@ == "/"@ + join(views(segments@).take(k as int), "/"@),
            decreases segments.len() - k,
        {
            proof {
                lemma_join_push(views(segments@).take(k as int), "/"@, segments@[k as int]@);
                assert(views(segments@).take(k + 1) =~= views(segments@).take(k as int).push(
                    segments@[k as int]@,
                ));
            }
            if k > 0 {
                path.append("/");
            }
            path.append(string_from_chars(&segments[k]).as_str());
            k = k + 1;
        }
        assert(views(segments@).take(segments@.len() as int) =~= views(segments@));
        path
    }

    /// esm.sh fetch spec for a bare package name, e.g. `@codemirror/view` ->
    /// `@codemirror/view@6`.
    ///
    /// Versions are pinned where a bare `@major` range resolves incorrectly --
    /// notably the meta `codemirror` package, whose `@6` resolves to an
    /// unrelated CodeMirror 5 lineage on esm.sh.
    pub fn package_spec(name: &str) -> (spec: String)
        ensures
            spec@ == package_spec_spec(name@),
    {
        let chars = chars_of(name);
        if chars_eq(&chars, &chars_of("codemirror")) {
            String::from_str("codemirror@6.0.2")
        } else if chars_eq(&chars, &chars_of("@codemirror/lang-yaml")) {
            String::from_str("@codemirror/lang-yaml@6.1.3")
        } else if chars_eq(&chars, &chars_of("@codemirror/lang-markdown")) {
            String::from_str("@codemirror/lang-markdown@6.5.0")
        } else if chars_eq(&chars, &chars_of("@codemirror/lsp-client")) {
            String::from_str("@codemirror/lsp-client@6.2.4")
        } else if starts_with(&chars, &chars_of("@codemirror/")) {
            String::from_str(name).concat("@6")
        } else if starts_with(&chars, &chars_of("@lezer/")) {
            String::from_str(name).concat("@1")
        } else {
            String::from_str(name)
        }
    }

    /// File stem for a package, e.g. `@codemirror/state` ->
    /// `codemirror__state`.
    pub fn file_stem(name: &str) -> (stem: String)
        ensures
            stem@ == file_stem_spec(name@),
    {
        let chars = chars_of(name);
        let start = skip_char(&chars, '@', 0);
        assert(chars@.skip(0) =~= chars@);
        let mut rest: Vec<char> = Vec::new();
        let mut i: usize = start;
        while i < chars.len()
            invariant
                start <= i <= chars@.len(),
                rest@ == chars@.subrange(start as int, i as int),
            decreases chars.len() - i,
        {
            rest.push(chars[i]);
            proof {
                assert(chars@.subrange(start as int, i + 1) =~= rest@);
            }
            i = i + 1;
        }
        assert(rest@ =~= chars@.skip(start as int));
        let slash = chars_of("/");
        let underscores = chars_of("__");
        proof {
            reveal_strlit("/");
        }
        string_from_chars(&replace(&rest, &slash, &underscores))
    }
}

} // verus!
