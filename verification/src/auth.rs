//! The decisions of the JWT validation client: where its native library is
//! looked for, and what the native answers mean.

use vstd::prelude::*;
use vstd::string::*;

use crate::config::opt_view;
use crate::error::Error;
use crate::native::TargetOs;
use crate::text::{concat2, concat3, decimal, i32_to_decimal};

verus! {

/// The pieces of a text between the occurrences of a separator, as
/// `str::split` yields them (empty pieces included; the empty text has one
/// empty piece).
pub open spec fn split_on(s: Seq<char>, sep: char) -> Seq<Seq<char>>
    decreases s.len(),
{
    if s.len() == 0 {
        seq![Seq::empty()]
    } else {
        let r = split_on(s.drop_last(), sep);
        if s.last() == sep {
            r.push(Seq::empty())
        } else {
            r.update(r.len() - 1, r.last().push(s.last()))
        }
    }
}

/// Splitting always yields at least one piece.
pub proof fn lemma_split_on_nonempty(s: Seq<char>, sep: char)
    ensures
        split_on(s, sep).len() >= 1,
    decreases s.len(),
{
    if s.len() > 0 {
        lemma_split_on_nonempty(s.drop_last(), sep);
    }
}

/// Splits a text at every `:`, keeping empty pieces.
pub fn split_colon(s: &str) -> (pieces: Vec<String>)
    ensures
        pieces@.map_values(|p: String| p@) == split_on(s@, ':'),
{
    let n = s.unicode_len();
    let mut pieces: Vec<String> = Vec::new();
    let mut start: usize = 0;
    let mut i: usize = 0;
    assert(s@.take(0) =~= Seq::<char>::empty());
    assert(s@.subrange(0, 0) =~= Seq::<char>::empty());
    assert(pieces@.map_values(|p: String| p@) + seq![s@.subrange(0, 0)] =~= split_on(
        s@.take(0),
        ':',
    ));
    while i < n
        invariant
            n == s@.len(),
            start <= i <= n,
            pieces@.map_values(|p: String| p@) + seq![s@.subrange(start as int, i as int)]
                == split_on(s@.take(i as int), ':'),
        decreases n - i,
    {
        let c = s.get_char(i);
        let ghost before = pieces@.map_values(|p: String| p@);
        assert(s@.take(i + 1).drop_last() =~= s@.take(i as int));
        assert(s@.take(i + 1).last() == c);
        proof { lemma_split_on_nonempty(s@.take(i as int), ':'); }
        if c == ':' {
            let piece = s.substring_char(start, i);
            pieces.push(String::from_str(piece));
            start = i + 1;
            assert(pieces@.map_values(|p: String| p@) =~= before.push(piece@));
            assert(s@.subrange(start as int, (i + 1) as int) =~= Seq::<char>::empty());
            assert(pieces@.map_values(|p: String| p@) + seq![s@.subrange(start as int, (i + 1) as int)]
                =~= split_on(s@.take((i + 1) as int), ':'));
        } else {
            assert(s@.subrange(start as int, (i + 1) as int) =~= s@.subrange(
                start as int,
                i as int,
            ).push(c));
            assert(pieces@.map_values(|p: String| p@) + seq![s@.subrange(start as int, (i + 1) as int)]
                =~= split_on(s@.take((i + 1) as int), ':'));
        }
        i = i + 1;
    }
    let last = s.substring_char(start, n);
    let ghost before = pieces@.map_values(|p: String| p@);
    pieces.push(String::from_str(last));
    assert(s@.take(n as int) =~= s@);
    assert(pieces@.map_values(|p: String| p@) =~= before.push(last@));
    pieces
}


/// The pieces joined back with the separator between them.
pub open spec fn join_on(pieces: Seq<Seq<char>>, sep: char) -> Seq<char>
    decreases pieces.len(),
{
    if pieces.len() == 0 {
        Seq::empty()
    } else if pieces.len() == 1 {
        pieces[0]
    } else {
        join_on(pieces.drop_last(), sep).push(sep) + pieces.last()
    }
}

/// Splitting loses nothing: joining the pieces with the separator gives the
/// text back, and no piece holds the separator.
pub proof fn law_split_join(s: Seq<char>, sep: char)
    ensures
        join_on(split_on(s, sep), sep) == s,
        forall|i: int| 0 <= i < split_on(s, sep).len() ==> !(#[trigger] split_on(s, sep)[i]).contains(sep),
    decreases s.len(),
{
    if s.len() == 0 {
        assert(split_on(s, sep) =~= seq![Seq::<char>::empty()]);
        assert(join_on(split_on(s, sep), sep) =~= s);
    } else {
        let t = s.drop_last();
        let c = s.last();
        law_split_join(t, sep);
        lemma_split_on_nonempty(t, sep);
        let r = split_on(t, sep);
        assert(s =~= t.push(c));
        if c == sep {
            let q = r.push(Seq::<char>::empty());
            assert(split_on(s, sep) == q);
            assert(q.drop_last() =~= r);
            assert(join_on(q, sep) =~= join_on(r, sep).push(sep) + Seq::<char>::empty());
            assert forall|i: int| 0 <= i < q.len() implies !(#[trigger] q[i]).contains(sep) by {
                if i < r.len() {
                    assert(q[i] == r[i]);
                } else {
                    assert(q[i] =~= Seq::<char>::empty());
                }
            }
        } else {
            let q = r.update(r.len() - 1, r.last().push(c));
            assert(split_on(s, sep) == q);
            if r.len() == 1 {
                assert(join_on(q, sep) == q[0]);
                assert(join_on(r, sep) == r[0]);
            } else {
                assert(q.drop_last() =~= r.drop_last());
                assert(join_on(q, sep) == join_on(q.drop_last(), sep).push(sep) + q.last());
                assert(join_on(r, sep) == join_on(r.drop_last(), sep).push(sep) + r.last());
                assert(join_on(q, sep) =~= join_on(r, sep).push(c));
            }
            assert forall|i: int| 0 <= i < q.len() implies !(#[trigger] q[i]).contains(sep) by {
                if i < r.len() - 1 {
                    assert(q[i] == r[i]);
                } else {
                    assert(q[i] == r[i].push(c));
                    assert(!r[i].contains(sep));
                    if q[i].contains(sep) {
                        let k = choose|k: int| 0 <= k < q[i].len() && q[i][k] == sep;
                        if k < r[i].len() {
                            assert(r[i][k] == sep);
                        }
                    }
                }
            }
        }
    }
}

/// A directory taken from a search-path variable, with a trailing `/`.
pub open spec fn as_dir(p: Seq<char>) -> Seq<char> {
    if p.len() > 0 && p.last() == '/' {
        p
    } else {
        p.push('/')
    }
}

/// The directories named by the pieces of a search-path variable: empty
/// pieces are skipped, the others end in `/`.
pub open spec fn dirs_of_pieces(pieces: Seq<Seq<char>>) -> Seq<Seq<char>>
    decreases pieces.len(),
{
    if pieces.len() == 0 {
        Seq::empty()
    } else {
        let r = dirs_of_pieces(pieces.drop_last());
        if pieces.last().len() == 0 {
            r
        } else {
            r.push(as_dir(pieces.last()))
        }
    }
}

/// Every directory taken from a search-path variable is non-empty and ends
/// in `/`.
pub proof fn law_dirs_end_in_slash(pieces: Seq<Seq<char>>)
    ensures
        forall|i: int|
            0 <= i < dirs_of_pieces(pieces).len() ==> (#[trigger] dirs_of_pieces(pieces)[i]).len() > 0
                && dirs_of_pieces(pieces)[i].last() == '/',
    decreases pieces.len(),
{
    if pieces.len() > 0 {
        law_dirs_end_in_slash(pieces.drop_last());
        let r = dirs_of_pieces(pieces.drop_last());
        let p = pieces.last();
        if p.len() > 0 {
            let d = as_dir(p);
            assert(d.len() > 0 && d.last() == '/');
            let q = r.push(d);
            assert(dirs_of_pieces(pieces) == q);
            assert forall|i: int| 0 <= i < q.len() implies (#[trigger] q[i]).len() > 0 && q[i].last() == '/' by {
                if i < r.len() {
                    assert(q[i] == r[i]);
                }
            }
        }
    }
}

/// The directories named by a `:`-separated search-path variable, if it is set.
pub open spec fn dirs_of_var(var: Option<Seq<char>>) -> Seq<Seq<char>> {
    match var {
        Some(v) => dirs_of_pieces(split_on(v, ':')),
        None => Seq::empty(),
    }
}

/// The directories searched for the token validation library, in order:
/// the current directory and system paths, `./`, `./native/lib/`,
/// `../native/lib/`, those of `DYLD_LIBRARY_PATH`, those of
/// `LD_LIBRARY_PATH`, `/usr/local/lib/` and `/usr/lib/`.
pub open spec fn auth_search_paths_spec(
    dyld_library_path: Option<Seq<char>>,
    ld_library_path: Option<Seq<char>>,
) -> Seq<Seq<char>> {
    seq![Seq::empty(), "./"@, "./native/lib/"@, "../native/lib/"@]
        + dirs_of_var(dyld_library_path)
        + dirs_of_var(ld_library_path)
        + seq!["/usr/local/lib/"@, "/usr/lib/"@]
}

proof fn lemma_dirs_of_pieces_contains(pieces: Seq<Seq<char>>, i: int)
    requires
        0 <= i < pieces.len(),
        pieces[i].len() > 0,
    ensures
        dirs_of_pieces(pieces).contains(as_dir(pieces[i])),
    decreases pieces.len(),
{
    let r = dirs_of_pieces(pieces.drop_last());
    if i == pieces.len() - 1 {
        assert(dirs_of_pieces(pieces) == r.push(as_dir(pieces[i])));
        assert(dirs_of_pieces(pieces)[r.len() as int] == as_dir(pieces[i]));
    } else {
        assert(pieces.drop_last()[i] == pieces[i]);
        lemma_dirs_of_pieces_contains(pieces.drop_last(), i);
        let j = choose|j: int| 0 <= j < r.len() && r[j] == as_dir(pieces[i]);
        let q = dirs_of_pieces(pieces);
        if pieces.last().len() == 0 {
            assert(q == r);
        } else {
            assert(q == r.push(as_dir(pieces.last())));
            assert(q[j] == r[j]);
        }
        assert(q[j] == as_dir(pieces[i]));
    }
}

/// The search paths are, in this order: the four fixed places (system
/// paths and the current directory, `./`, `./native/lib/`,
/// `../native/lib/`), every directory named by `DYLD_LIBRARY_PATH`, every
/// directory named by `LD_LIBRARY_PATH`, then `/usr/local/lib/` and
/// `/usr/lib/`; each variable contributes its directories whether or not
/// the other is set.
pub proof fn law_search_paths_layout(dyld: Option<Seq<char>>, ld: Option<Seq<char>>)
    ensures
        ({
            let s = auth_search_paths_spec(dyld, ld);
            let d = dirs_of_var(dyld);
            let l = dirs_of_var(ld);
            &&& s.len() == 6 + d.len() + l.len()
            &&& s[0] == Seq::<char>::empty()
            &&& s[1] == "./"@
            &&& s[2] == "./native/lib/"@
            &&& s[3] == "../native/lib/"@
            &&& s.subrange(4, 4 + d.len() as int) == d
            &&& s.subrange(4 + d.len() as int, 4 + d.len() + l.len() as int) == l
            &&& s[s.len() - 2] == "/usr/local/lib/"@
            &&& s[s.len() - 1] == "/usr/lib/"@
        }),
        dyld is None ==> dirs_of_var(dyld).len() == 0,
        ld is None ==> dirs_of_var(ld).len() == 0,
{
    let s = auth_search_paths_spec(dyld, ld);
    let d = dirs_of_var(dyld);
    let l = dirs_of_var(ld);
    assert(s.subrange(4, 4 + d.len() as int) =~= d);
    assert(s.subrange(4 + d.len() as int, 4 + d.len() + l.len() as int) =~= l);
}

/// Every non-empty piece of a search-path variable is searched, as that
/// piece with a `/` added unless it already ends with one.
pub proof fn law_every_named_dir_searched(v: Seq<char>, other: Option<Seq<char>>, i: int)
    requires
        0 <= i < split_on(v, ':').len(),
        split_on(v, ':')[i].len() > 0,
    ensures
        ({
            let p = split_on(v, ':')[i];
            let dir = if p.last() == '/' { p } else { p.push('/') };
            &&& auth_search_paths_spec(Some(v), other).contains(dir)
            &&& auth_search_paths_spec(other, Some(v)).contains(dir)
        }),
{
    let pieces = split_on(v, ':');
    let p = pieces[i];
    lemma_dirs_of_pieces_contains(pieces, i);
    let d = dirs_of_pieces(pieces);
    let j = choose|j: int| 0 <= j < d.len() && d[j] == as_dir(p);
    law_search_paths_layout(Some(v), other);
    law_search_paths_layout(other, Some(v));
    let s1 = auth_search_paths_spec(Some(v), other);
    assert(s1.subrange(4, 4 + d.len() as int)[j] == s1[4 + j]);
    assert(s1[4 + j] == as_dir(p));
    let s2 = auth_search_paths_spec(other, Some(v));
    let o = dirs_of_var(other);
    assert(s2.subrange(4 + o.len() as int, 4 + o.len() + d.len() as int)[j] == s2[4 + o.len() + j]);
    assert(s2[4 + o.len() + j] == as_dir(p));
}

/// The file names tried for the token validation library on a system.
pub open spec fn auth_library_names_spec(os: TargetOs) -> Seq<Seq<char>> {
    match os {
        TargetOs::MacOs => seq![
            "libgopher-orch.dylib"@,
            "libgopher-orch.0.dylib"@,
            "libgopher_orch.dylib"@,
        ],
        TargetOs::Windows => seq!["gopher-orch.dll"@, "libgopher-orch.dll"@, "gopher_orch.dll"@],
        TargetOs::Other => seq![
            "libgopher-orch.so"@,
            "libgopher-orch.so.0"@,
            "libgopher_orch.so"@,
        ],
    }
}

/// Every directory followed by every name: all names under the first
/// directory, then all under the second, and so on.
pub open spec fn cross_join(dirs: Seq<Seq<char>>, names: Seq<Seq<char>>) -> Seq<Seq<char>>
    decreases dirs.len(),
{
    if dirs.len() == 0 {
        Seq::empty()
    } else {
        cross_join(dirs.drop_last(), names) + names.map_values(|n: Seq<char>| dirs.last() + n)
    }
}

/// Joining every directory with every name gives one path per pair,
/// directory by directory and, under each directory, name by name: the
/// path at `i * names.len() + j` is directory `i` followed by name `j`.
pub proof fn law_cross_join_pairs(dirs: Seq<Seq<char>>, names: Seq<Seq<char>>)
    ensures
        cross_join(dirs, names).len() == dirs.len() * names.len(),
        forall|i: int, j: int|
            0 <= i < dirs.len() && 0 <= j < names.len() ==> #[trigger] cross_join(dirs, names)[i
                * names.len() + j] == dirs[i] + names[j],
    decreases dirs.len(),
{
    if dirs.len() > 0 {
        let ds = dirs.drop_last();
        law_cross_join_pairs(ds, names);
        let r = cross_join(ds, names);
        let last = names.map_values(|n: Seq<char>| dirs.last() + n);
        let c = cross_join(dirs, names);
        assert(c == r + last);
        assert(c.len() == ds.len() * names.len() + names.len());
        assert(ds.len() * names.len() + names.len() == dirs.len() * names.len()) by (nonlinear_arith)
            requires
                ds.len() + 1 == dirs.len(),
        ;
        assert forall|i: int, j: int|
            0 <= i < dirs.len() && 0 <= j < names.len() implies #[trigger] c[i * names.len() + j]
            == dirs[i] + names[j] by {
            if i < ds.len() {
                assert(i * names.len() + j < ds.len() * names.len()) by (nonlinear_arith)
                    requires
                        0 <= i < ds.len(),
                        0 <= j < names.len(),
                ;
                assert(0 <= i * names.len()) by (nonlinear_arith)
                    requires
                        0 <= i,
                ;
                assert(c[i * names.len() + j] == r[i * names.len() + j]);
                assert(ds[i] == dirs[i]);
            } else {
                assert(i == ds.len());
                assert(c[i * names.len() + j] == last[j]);
            }
        }
    }
}

/// The paths tried, in order, when loading the token validation library.
pub open spec fn auth_library_candidates_spec(
    os: TargetOs,
    dyld_library_path: Option<Seq<char>>,
    ld_library_path: Option<Seq<char>>,
) -> Seq<Seq<char>> {
    cross_join(
        auth_search_paths_spec(dyld_library_path, ld_library_path),
        auth_library_names_spec(os),
    )
}

fn as_dir_string(p: &str) -> (s: String)
    requires
        p@.len() > 0,
    ensures
        s@ == as_dir(p@),
{
    let n = p.unicode_len();
    if p.get_char(n - 1) == '/' {
        String::from_str(p)
    } else {
        proof { reveal_strlit("/"); }
        concat2(p, "/")
    }
}

/// The directories named by a `:`-separated search-path variable.
pub fn dirs_of(var: &str) -> (dirs: Vec<String>)
    ensures
        dirs@.map_values(|d: String| d@) == dirs_of_pieces(split_on(var@, ':')),
{
    let pieces = split_colon(var);
    let ghost pv = pieces@.map_values(|p: String| p@);
    let mut dirs: Vec<String> = Vec::new();
    let mut i: usize = 0;
    assert(pv.take(0) =~= Seq::<Seq<char>>::empty());
    while i < pieces.len()
        invariant
            i <= pieces.len(),
            pv == pieces@.map_values(|p: String| p@),
            pv == split_on(var@, ':'),
            dirs@.map_values(|d: String| d@) == dirs_of_pieces(pv.take(i as int)),
        decreases pieces.len() - i,
    {
        let ghost before = dirs@.map_values(|d: String| d@);
        assert(pv.take(i + 1).drop_last() =~= pv.take(i as int));
        assert(pv.take(i + 1).last() == pieces[i as int]@);
        let p = pieces[i].as_str();
        if !p.is_empty() {
            dirs.push(as_dir_string(p));
            assert(dirs@.map_values(|d: String| d@) =~= before.push(as_dir(p@)));
        }
        i = i + 1;
    }
    assert(pv.take(pieces.len() as int) =~= pv);
    dirs
}

fn push_all(out: &mut Vec<String>, more: Vec<String>)
    ensures
        final(out)@.map_values(|s: String| s@) == old(out)@.map_values(|s: String| s@)
            + more@.map_values(|s: String| s@),
{
    let mut i: usize = 0;
    let ghost start = out@.map_values(|s: String| s@);
    let ghost mv = more@.map_values(|s: String| s@);
    while i < more.len()
        invariant
            i <= more.len(),
            mv == more@.map_values(|s: String| s@),
            out@.map_values(|s: String| s@) == start + mv.take(i as int),
        decreases more.len() - i,
    {
        let ghost before = out@.map_values(|s: String| s@);
        out.push(more[i].clone());
        assert(out@.map_values(|s: String| s@) =~= before.push(mv[i as int]));
        assert(mv.take(i + 1) =~= mv.take(i as int).push(mv[i as int]));
        i = i + 1;
    }
    assert(mv.take(more.len() as int) =~= mv);
}

/// The directories searched for the token validation library, in order,
/// given the values of `DYLD_LIBRARY_PATH` and `LD_LIBRARY_PATH` (`None`
/// where a variable is unset).
pub fn auth_search_paths(dyld_library_path: Option<&str>, ld_library_path: Option<&str>) -> (paths: Vec<String>)
    ensures
        paths@.map_values(|p: String| p@) == auth_search_paths_spec(
            match dyld_library_path {
                Some(v) => Some(v@),
                None => None,
            },
            match ld_library_path {
                Some(v) => Some(v@),
                None => None,
            },
        ),
{
    let mut paths: Vec<String> = vec![
        String::new(),
        String::from_str("./"),
        String::from_str("./native/lib/"),
        String::from_str("../native/lib/"),
    ];
    let ghost p0 = paths@.map_values(|p: String| p@);
    assert(p0 =~= seq![Seq::empty(), "./"@, "./native/lib/"@, "../native/lib/"@]);
    match dyld_library_path {
        Some(v) => push_all(&mut paths, dirs_of(v)),
        None => {},
    }
    match ld_library_path {
        Some(v) => push_all(&mut paths, dirs_of(v)),
        None => {},
    }
    let ghost p1 = paths@.map_values(|p: String| p@);
    paths.push(String::from_str("/usr/local/lib/"));
    paths.push(String::from_str("/usr/lib/"));
    assert(paths@.map_values(|p: String| p@) =~= p1 + seq!["/usr/local/lib/"@, "/usr/lib/"@]);
    paths
}


/// The file names tried for the token validation library on a system.
pub fn auth_library_names(os: TargetOs) -> (names: Vec<String>)
    ensures
        names@.map_values(|n: String| n@) == auth_library_names_spec(os),
{
    let names = match os {
        TargetOs::MacOs => vec![
            String::from_str("libgopher-orch.dylib"),
            String::from_str("libgopher-orch.0.dylib"),
            String::from_str("libgopher_orch.dylib"),
        ],
        TargetOs::Windows => vec![
            String::from_str("gopher-orch.dll"),
            String::from_str("libgopher-orch.dll"),
            String::from_str("gopher_orch.dll"),
        ],
        TargetOs::Other => vec![
            String::from_str("libgopher-orch.so"),
            String::from_str("libgopher-orch.so.0"),
            String::from_str("libgopher_orch.so"),
        ],
    };
    assert(names@.map_values(|n: String| n@) =~= auth_library_names_spec(os));
    names
}

/// Every directory followed by every name, directory by directory.
pub fn cross_join_paths(dirs: &Vec<String>, names: &Vec<String>) -> (out: Vec<String>)
    ensures
        out@.map_values(|s: String| s@) == cross_join(
            dirs@.map_values(|d: String| d@),
            names@.map_values(|n: String| n@),
        ),
{
    let ghost dv = dirs@.map_values(|d: String| d@);
    let ghost nv = names@.map_values(|n: String| n@);
    let mut out: Vec<String> = Vec::new();
    let mut i: usize = 0;
    assert(dv.take(0) =~= Seq::<Seq<char>>::empty());
    while i < dirs.len()
        invariant
            i <= dirs.len(),
            dv == dirs@.map_values(|d: String| d@),
            nv == names@.map_values(|n: String| n@),
            out@.map_values(|s: String| s@) == cross_join(dv.take(i as int), nv),
        decreases dirs.len() - i,
    {
        let ghost prefix = out@.map_values(|s: String| s@);
        let d = dirs[i].as_str();
        let mut j: usize = 0;
        assert(nv.take(0).map_values(|n: Seq<char>| d@ + n) =~= Seq::<Seq<char>>::empty());
        while j < names.len()
            invariant
                i < dirs.len(),
                j <= names.len(),
                d@ == dv[i as int],
                nv == names@.map_values(|n: String| n@),
                out@.map_values(|s: String| s@) == prefix + nv.take(j as int).map_values(
                    |n: Seq<char>| d@ + n,
                ),
            decreases names.len() - j,
        {
            let ghost before = out@.map_values(|s: String| s@);
            out.push(concat2(d, names[j].as_str()));
            assert(out@.map_values(|s: String| s@) =~= before.push(d@ + nv[j as int]));
            assert(nv.take(j + 1).map_values(|n: Seq<char>| d@ + n) =~= nv.take(
                j as int,
            ).map_values(|n: Seq<char>| d@ + n).push(d@ + nv[j as int]));
            j = j + 1;
        }
        assert(nv.take(names.len() as int) =~= nv);
        assert(dv.take(i + 1).drop_last() =~= dv.take(i as int));
        assert(dv.take(i + 1).last() == d@);
        i = i + 1;
    }
    assert(dv.take(dirs.len() as int) =~= dv);
    out
}

/// The paths tried, in order, when loading the token validation library.
pub fn auth_library_candidates(
    os: TargetOs,
    dyld_library_path: Option<&str>,
    ld_library_path: Option<&str>,
) -> (paths: Vec<String>)
    ensures
        paths@.map_values(|p: String| p@) == auth_library_candidates_spec(
            os,
            match dyld_library_path {
                Some(v) => Some(v@),
                None => None,
            },
            match ld_library_path {
                Some(v) => Some(v@),
                None => None,
            },
        ),
{
    let dirs = auth_search_paths(dyld_library_path, ld_library_path);
    let names = auth_library_names(os);
    cross_join_paths(&dirs, &names)
}

/// A text in double quotes.
pub open spec fn quoted(s: Seq<char>) -> Seq<char> {
    seq!['"'] + s + seq!['"']
}

/// Texts in double quotes, separated by `, `.
pub open spec fn quoted_items(items: Seq<Seq<char>>) -> Seq<char>
    decreases items.len(),
{
    if items.len() == 0 {
        Seq::empty()
    } else if items.len() == 1 {
        quoted(items[0])
    } else {
        quoted_items(items.drop_last()) + seq![',', ' '] + quoted(items.last())
    }
}

/// A list of texts as `{:?}` shows a list of plain names:
/// `["a", "b"]`.
pub open spec fn debug_list(items: Seq<Seq<char>>) -> Seq<char> {
    seq!['['] + quoted_items(items) + seq![']']
}

/// The list of names, written as `{:?}` writes it for names without quotes
/// or backslashes.
pub fn debug_names(items: &Vec<String>) -> (s: String)
    ensures
        s@ == debug_list(items@.map_values(|n: String| n@)),
{
    let ghost iv = items@.map_values(|n: String| n@);
    proof {
        reveal_strlit("[");
        reveal_strlit("]");
        reveal_strlit("\"");
        reveal_strlit(", ");
    }
    let mut s = String::from_str("[");
    let mut i: usize = 0;
    assert(iv.take(0) =~= Seq::<Seq<char>>::empty());
    while i < items.len()
        invariant
            i <= items.len(),
            iv == items@.map_values(|n: String| n@),
            s@ == seq!['['] + quoted_items(iv.take(i as int)),
            "\""@ == seq!['"'],
            ", "@ == seq![',', ' '],
        decreases items.len() - i,
    {
        if i > 0 {
            s.append(", ");
        }
        s.append("\"");
        s.append(items[i].as_str());
        s.append("\"");
        assert(iv.take(i + 1).drop_last() =~= iv.take(i as int));
        assert(iv.take(i + 1).last() == iv[i as int]);
        assert(s@ =~= seq!['['] + quoted_items(iv.take(i + 1)));
        i = i + 1;
    }
    assert(iv.take(items.len() as int) =~= iv);
    s.append("]");
    s
}

/// The error when no candidate path held the token validation library.
pub open spec fn auth_library_load_error_msg(os: TargetOs) -> Seq<char> {
    "Failed to load gopher-auth library. Tried: "@ + debug_list(auth_library_names_spec(os))
}

/// The error reported when the token validation library could not be loaded
/// from any candidate path: it lists the file names tried.
pub fn auth_library_load_error(os: TargetOs) -> (e: Error)
    ensures
        e is Auth && e.msg() == auth_library_load_error_msg(os),
{
    let names = auth_library_names(os);
    let list = debug_names(&names);
    Error::auth(concat2("Failed to load gopher-auth library. Tried: ", list.as_str()).as_str())
}


/// Result of token validation.
#[derive(Debug, Clone)]
pub struct ValidationResult {
    /// Whether the token is valid.
    pub valid: bool,
    /// Error code (0 for success).
    pub error_code: i32,
    /// Error message if validation failed.
    pub error_message: Option<String>,
}

impl ValidationResult {
    /// Create a successful validation result.
    pub fn success() -> (r: Self)
        ensures
            r.valid,
            r.error_code == 0,
            r.error_message is None,
    {
        ValidationResult { valid: true, error_code: 0, error_message: None }
    }

    /// Create a failed validation result.
    pub fn failure(code: i32, message: &str) -> (r: Self)
        ensures
            !r.valid,
            r.error_code == code,
            opt_view(r.error_message) == Some(message@),
    {
        ValidationResult { valid: false, error_code: code, error_message: Some(String::from_str(message)) }
    }
}

/// Extracted token payload.
#[derive(Debug, Clone)]
pub struct TokenPayload {
    /// Token subject (user ID).
    pub subject: String,
    /// Space-separated scopes.
    pub scopes: String,
    /// Token audience.
    pub audience: String,
    /// Expiration timestamp (unix seconds).
    pub expiration: u64,
}

/// The message of a failed validation: the native library's own message
/// when it gave one, else the fallback.
pub open spec fn native_or(native_error: Option<Seq<char>>, fallback: Seq<char>) -> Seq<char> {
    match native_error {
        Some(m) => m,
        None => fallback,
    }
}

/// What a validation call's answer means. `code` is the call's status (0
/// when the call itself succeeded), `valid` the validity flag it wrote, and
/// `native_error` the message it wrote, if any:
/// - a nonzero status fails with that status as the code, and the native
///   message or "Validation failed with code <status>";
/// - otherwise a nonzero flag is a success;
/// - otherwise it fails with code -2 and the native message or
///   "Token validation failed".
pub fn validation_outcome(code: i32, valid: i32, native_error: Option<String>) -> (r: ValidationResult)
    ensures
        code != 0 ==> !r.valid && r.error_code == code && opt_view(r.error_message) == Some(
            native_or(opt_view(native_error), "Validation failed with code "@ + decimal(code as int)),
        ),
        code == 0 && valid != 0 ==> r.valid && r.error_code == 0 && r.error_message is None,
        code == 0 && valid == 0 ==> !r.valid && r.error_code == -2 && opt_view(r.error_message)
            == Some(native_or(opt_view(native_error), "Token validation failed"@)),
        r.valid <==> r.error_code == 0,
{
    if code != 0 {
        let msg = match native_error {
            Some(m) => m,
            None => concat2("Validation failed with code ", i32_to_decimal(code).as_str()),
        };
        return ValidationResult::failure(code, msg.as_str());
    }
    if valid != 0 {
        ValidationResult::success()
    } else {
        let msg = match native_error {
            Some(m) => m,
            None => String::from_str("Token validation failed"),
        };
        ValidationResult::failure(-2, msg.as_str())
    }
}

/// Whether the message a validation call wrote is read: only when the
/// call did not end in success, since only then is it part of the result.
pub fn reads_native_error(code: i32, valid: i32) -> (r: bool)
    ensures
        r == (code != 0 || valid == 0),
{
    code != 0 || valid == 0
}

/// A status answer of the native library: success when `code` is 0 and the
/// expected handle is present, else an `Auth` error naming the step and
/// the code.
pub open spec fn status_failure_msg(step: Seq<char>, code: i32) -> Seq<char> {
    step + " failed with code "@ + decimal(code as int)
}

/// The outcome of initialising the token validation library: its status
/// must be 0.
pub fn auth_init_outcome(code: i32) -> (r: Result<(), Error>)
    ensures
        code == 0 <==> r is Ok,
        r is Err ==> r->Err_0 is Auth && r->Err_0.msg() == status_failure_msg(
            "gopher_auth_init"@,
            code,
        ),
{
    if code != 0 {
        let msg = concat2("gopher_auth_init failed with code ", i32_to_decimal(code).as_str());
        proof {
            reveal_strlit("gopher_auth_init failed with code ");
            reveal_strlit("gopher_auth_init");
            reveal_strlit(" failed with code ");
        }
        Err(Error::auth(msg.as_str()))
    } else {
        Ok(())
    }
}

/// The outcome of creating a validation client: its status must be 0 and
/// the client handle present.
pub fn client_create_outcome(code: i32, handle_is_null: bool) -> (r: Result<(), Error>)
    ensures
        (code == 0 && !handle_is_null) <==> r is Ok,
        r is Err ==> r->Err_0 is Auth && r->Err_0.msg() == status_failure_msg(
            "gopher_auth_client_create"@,
            code,
        ),
{
    if code != 0 || handle_is_null {
        let msg = concat2("gopher_auth_client_create failed with code ", i32_to_decimal(code).as_str());
        proof {
            reveal_strlit("gopher_auth_client_create failed with code ");
            reveal_strlit("gopher_auth_client_create");
            reveal_strlit(" failed with code ");
        }
        Err(Error::auth(msg.as_str()))
    } else {
        Ok(())
    }
}

/// The outcome of extracting a token's payload: its status must be 0 and
/// the payload handle present.
pub fn payload_outcome(code: i32, payload_is_null: bool) -> (r: Result<(), Error>)
    ensures
        (code == 0 && !payload_is_null) <==> r is Ok,
        r is Err ==> r->Err_0 is Auth && r->Err_0.msg() == "Failed to extract payload, code "@
            + decimal(code as int),
{
    if code != 0 || payload_is_null {
        let msg = concat2("Failed to extract payload, code ", i32_to_decimal(code).as_str());
        Err(Error::auth(msg.as_str()))
    } else {
        Ok(())
    }
}

/// The outcome of setting a client option: its status must be 0.
pub fn set_option_outcome(key: &str, code: i32) -> (r: Result<(), Error>)
    ensures
        code == 0 <==> r is Ok,
        r is Err ==> r->Err_0 is Auth && r->Err_0.msg() == "Failed to set option '"@ + key@
            + "', code "@ + decimal(code as int),
{
    if code != 0 {
        let head = concat3("Failed to set option '", key, "', code ");
        let msg = concat2(head.as_str(), i32_to_decimal(code).as_str());
        Err(Error::auth(msg.as_str()))
    } else {
        Ok(())
    }
}

/// The message when a native function could not be found:
/// "Failed to load <what>: <detail>".
pub fn load_failure_message(what: &str, detail: &str) -> (s: String)
    ensures
        s@ == "Failed to load "@ + what@ + ": "@ + detail@,
{
    let head = concat3("Failed to load ", what, ": ");
    concat2(head.as_str(), detail)
}

/// The message when an argument cannot be handed to the native library:
/// "Invalid <what>: <detail>".
pub fn invalid_input_message(what: &str, detail: &str) -> (s: String)
    ensures
        s@ == "Invalid "@ + what@ + ": "@ + detail@,
{
    let head = concat3("Invalid ", what, ": ");
    concat2(head.as_str(), detail)
}

} // verus!
