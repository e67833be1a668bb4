//! Laws of path resolution: how a relative import names a file from the
//! path of the module that imports it.

use vstd::prelude::*;

use crate::text::{join, lemma_join_push};
use crate::vendor::names::{
    clean_segment, dir_of, non_empty, path_resolve_spec, split_on, walk,
};

verus! {

/// A directory or file name within a path: non-empty and free of `/`.
pub open spec fn path_name(name: Seq<char>) -> bool {
    name.len() > 0 && !name.contains('/')
}

/// The absolute path of the directory with segments `dirs`: `/a/b` for
/// `[a, b]`, and nothing for the root.
pub open spec fn dir_path(dirs: Seq<Seq<char>>) -> Seq<char> {
    if dirs.len() == 0 {
        Seq::empty()
    } else {
        "/"@ + join(dirs, "/"@)
    }
}

/// Walking from `base`: `.` and empty steps stay put, `..` goes up exactly one
/// directory (staying at the root when there is none), and any other step goes
/// down into that directory.
pub proof fn lemma_walk_steps(base: Seq<Seq<char>>, steps: Seq<Seq<char>>, name: Seq<char>)
    requires
        clean_segment(name),
    ensures
        walk(base, steps.push("."@)) == walk(base, steps),
        walk(base, steps.push(Seq::empty())) == walk(base, steps),
        walk(base, steps.push(".."@)) == if walk(base, steps).len() > 0 {
            walk(base, steps).take(walk(base, steps).len() - 1)
        } else {
            walk(base, steps)
        },
        walk(base, steps.push(name)) == walk(base, steps) + seq![name],
{
    reveal_strlit(".");
    reveal_strlit("..");
    assert(steps.push("."@).drop_last() =~= steps);
    assert(steps.push(Seq::empty()).drop_last() =~= steps);
    assert(steps.push(".."@).drop_last() =~= steps);
    assert(steps.push(name).drop_last() =~= steps);
    let here = walk(base, steps);
    assert(".."@.len() == 2 && "."@.len() == 1);
    assert(".."@ != "."@);
    assert(walk(base, steps.push(".."@)) == if here.len() > 0 {
        here.drop_last()
    } else {
        here
    });
    if here.len() > 0 {
        assert(here.drop_last() =~= here.take(here.len() - 1));
    }
    assert(here.push(name) =~= here + seq![name]);
}

/// Splitting a text without the separator gives the text alone.
proof fn lemma_split_on_single(s: Seq<char>, sep: char)
    requires
        !s.contains(sep),
    ensures
        split_on(s, sep) == seq![s],
    decreases s.len(),
{
    if s.len() > 0 {
        if s.drop_last().contains(sep) {
            let k = choose|k: int| 0 <= k < s.drop_last().len() && s.drop_last()[k] == sep;
            assert(s[k] == sep);
        }
        lemma_split_on_single(s.drop_last(), sep);
        assert(s[s.len() - 1] == s.last());
        assert(s.drop_last().push(s.last()) =~= s);
        assert(seq![s.drop_last()].update(0, s.drop_last().push(s.last())) =~= seq![s]);
    } else {
        assert(s =~= Seq::<char>::empty());
    }
}

/// Splitting `s`, a separator and a piece without separators gives the pieces
/// of `s` and then that piece.
proof fn lemma_split_on_append(s: Seq<char>, sep: char, piece: Seq<char>)
    requires
        !piece.contains(sep),
    ensures
        split_on(s + seq![sep] + piece, sep) == split_on(s, sep).push(piece),
    decreases piece.len(),
{
    let t = s + seq![sep] + piece;
    if piece.len() == 0 {
        assert(t.drop_last() =~= s);
        assert(t.last() == sep);
        assert(piece =~= Seq::<char>::empty());
    } else {
        let init = piece.drop_last();
        if init.contains(sep) {
            let k = choose|k: int| 0 <= k < init.len() && init[k] == sep;
            assert(piece[k] == sep);
        }
        lemma_split_on_append(s, sep, init);
        assert(t.drop_last() =~= s + seq![sep] + init);
        assert(t.last() == piece.last());
        assert(piece[piece.len() - 1] == piece.last());
        let pieces = split_on(s, sep).push(init);
        assert(pieces.last() == init);
        assert(init.push(piece.last()) =~= piece);
        assert(pieces.update(pieces.len() - 1, pieces.last().push(piece.last())) =~= split_on(
            s,
            sep,
        ).push(piece));
    }
}

/// The directory of `dir`, `/` and a name without `/` is `dir`.
proof fn lemma_dir_of_append(dir: Seq<char>, name: Seq<char>)
    requires
        !name.contains('/'),
    ensures
        dir_of(dir + seq!['/'] + name) == dir,
    decreases name.len(),
{
    let t = dir + seq!['/'] + name;
    if name.len() == 0 {
        assert(t.drop_last() =~= dir);
    } else {
        let init = name.drop_last();
        if init.contains('/') {
            let k = choose|k: int| 0 <= k < init.len() && init[k] == '/';
            assert(name[k] == '/');
        }
        assert(name[name.len() - 1] == name.last());
        lemma_dir_of_append(dir, init);
        assert(t.drop_last() =~= dir + seq!['/'] + init);
    }
}

/// Adding a segment to a directory path appends `/` and the segment.
proof fn lemma_dir_path_push(dirs: Seq<Seq<char>>, name: Seq<char>)
    ensures
        dir_path(dirs.push(name)) == dir_path(dirs) + seq!['/'] + name,
{
    reveal_strlit("/");
    lemma_join_push(dirs, "/"@, name);
    if dirs.len() == 0 {
        assert(dir_path(dirs.push(name)) =~= dir_path(dirs) + seq!['/'] + name);
    } else {
        assert(dir_path(dirs.push(name)) =~= dir_path(dirs) + seq!['/'] + name);
    }
}

/// The non-empty segments of a directory path are its directories.
proof fn lemma_dir_path_segments(dirs: Seq<Seq<char>>)
    requires
        forall|i: int| 0 <= i < dirs.len() ==> path_name(#[trigger] dirs[i]),
    ensures
        non_empty(split_on(dir_path(dirs), '/')) == dirs,
    decreases dirs.len(),
{
    if dirs.len() == 0 {
        let e = Seq::<Seq<char>>::empty();
        assert(non_empty(seq![Seq::<char>::empty()]) == non_empty(e)) by {
            assert(seq![Seq::<char>::empty()].drop_last() =~= e);
        }
        assert(dirs =~= e);
    } else {
        let init = dirs.drop_last();
        let last = dirs.last();
        assert(path_name(dirs[dirs.len() - 1]));
        lemma_dir_path_segments(init);
        assert(init.push(last) =~= dirs);
        lemma_dir_path_push(init, last);
        lemma_split_on_append(dir_path(init), '/', last);
        let pieces = split_on(dir_path(init), '/');
        assert(pieces.push(last).drop_last() =~= pieces);
    }
}

/// Resolving against the module at `/d1/../dn/file`: `./x` names `x` in the
/// module's own directory, `x` alone names it there too, and `../x` names it
/// one directory up, e.g. (`/a/b/c/d.mjs`, `../e.mjs`) -> `/a/b/e.mjs`.
pub proof fn lemma_path_resolve_relative(dirs: Seq<Seq<char>>, file: Seq<char>, name: Seq<char>)
    requires
        forall|i: int| 0 <= i < dirs.len() ==> path_name(#[trigger] dirs[i]),
        path_name(file),
        path_name(name),
        clean_segment(name),
    ensures
        path_resolve_spec("/"@ + join(dirs.push(file), "/"@), "./"@ + name) == "/"@ + join(
            dirs.push(name),
            "/"@,
        ),
        path_resolve_spec("/"@ + join(dirs.push(file), "/"@), name) == "/"@ + join(
            dirs.push(name),
            "/"@,
        ),
        dirs.len() > 0 ==> path_resolve_spec("/"@ + join(dirs.push(file), "/"@), "../"@ + name)
            == "/"@ + join(dirs.drop_last().push(name), "/"@),
{
    reveal_strlit("/");
    reveal_strlit("./");
    reveal_strlit("../");
    reveal_strlit(".");
    reveal_strlit("..");
    let source = "/"@ + join(dirs.push(file), "/"@);
    lemma_dir_path_push(dirs, file);
    assert(dir_path(dirs.push(file)) == source);
    lemma_dir_of_append(dir_path(dirs), file);
    lemma_dir_path_segments(dirs);
    assert(non_empty(split_on(dir_of(source), '/')) == dirs);
    let none = Seq::<Seq<char>>::empty();
    assert(walk(dirs, none) == dirs);
    lemma_walk_steps(dirs, none, name);
    assert(none.push(name) =~= seq![name]);
    assert(dirs + seq![name] =~= dirs.push(name));
    lemma_walk_steps(dirs, none, name);
    assert(none.push("."@) =~= seq!["."@]);
    lemma_walk_steps(dirs, seq!["."@], name);
    assert(seq!["."@].push(name) =~= seq!["."@, name]);
    assert(none.push(".."@) =~= seq![".."@]);
    lemma_walk_steps(dirs, seq![".."@], name);
    assert(seq![".."@].push(name) =~= seq![".."@, name]);
    assert(dirs.take(dirs.len() - 1) =~= dirs.drop_last());
    assert(dirs.drop_last() + seq![name] =~= dirs.drop_last().push(name));
    // `./name`
    assert("./"@ + name =~= "."@ + seq!['/'] + name);
    assert(!"."@.contains('/')) by {
        assert("."@[0] == '.');
    }
    lemma_split_on_single("."@, '/');
    lemma_split_on_append("."@, '/', name);
    let dot_steps = seq!["."@, name];
    assert(split_on("./"@ + name, '/') =~= dot_steps);
    assert(dot_steps.drop_last() =~= seq!["."@]);
    assert(seq!["."@].drop_last() =~= Seq::<Seq<char>>::empty());
    // `name`
    lemma_split_on_single(name, '/');
    assert(seq![name].drop_last() =~= Seq::<Seq<char>>::empty());
    // `../name`
    assert("../"@ + name =~= ".."@ + seq!['/'] + name);
    assert(!".."@.contains('/')) by {
        assert(".."@[0] == '.' && ".."@[1] == '.');
    }
    lemma_split_on_single(".."@, '/');
    lemma_split_on_append(".."@, '/', name);
    let up_steps = seq![".."@, name];
    assert(split_on("../"@ + name, '/') =~= up_steps);
    assert(up_steps.drop_last() =~= seq![".."@]);
    assert(seq![".."@].drop_last() =~= Seq::<Seq<char>>::empty());
}

} // verus!
