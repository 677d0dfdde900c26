//! Where the native gopher-orch library is looked for.

use vstd::prelude::*;
use vstd::string::*;

verus! {

/// The operating system family the library is built for; it decides the
/// file names of native libraries.
#[derive(Debug, Clone, Copy, PartialEq, Eq, Structural)]
pub enum TargetOs {
    MacOs,
    Windows,
    /// Linux and every other system that names shared objects `*.so`.
    Other,
}

/// The file name of the native orchestration library on a system.
pub open spec fn native_library_file_spec(os: TargetOs) -> Seq<char> {
    match os {
        TargetOs::MacOs => "libgopher-orch.dylib"@,
        TargetOs::Windows => "gopher-orch.dll"@,
        TargetOs::Other => "libgopher-orch.so"@,
    }
}

/// A path followed by a relative path: a `/` stands between them unless the
/// first is empty or already ends with one.
pub open spec fn join_path(dir: Seq<char>, rest: Seq<char>) -> Seq<char> {
    if dir.len() == 0 || dir.last() == '/' {
        dir + rest
    } else {
        dir + seq!['/'] + rest
    }
}

/// The places the native library is looked for, in order: `native/lib`
/// beside the executable, `./native/lib` under the working directory, and
/// `native/lib` under the project directory.
pub open spec fn native_library_candidates_spec(
    exe_dir: Seq<char>,
    manifest_dir: Seq<char>,
    os: TargetOs,
) -> Seq<Seq<char>> {
    let file = native_library_file_spec(os);
    seq![
        join_path(join_path(exe_dir, "native/lib"@), file),
        join_path("./native/lib"@, file),
        join_path(join_path(manifest_dir, "native/lib"@), file),
    ]
}

/// Whether a text ends with another.
pub open spec fn ends_with(s: Seq<char>, suffix: Seq<char>) -> bool {
    suffix.len() <= s.len() && s.subrange(s.len() - suffix.len(), s.len() as int) == suffix
}

/// Whether a text starts with another.
pub open spec fn starts_with(s: Seq<char>, prefix: Seq<char>) -> bool {
    prefix.len() <= s.len() && s.subrange(0, prefix.len() as int) == prefix
}

proof fn lemma_join_before_native_lib(dir: Seq<char>, file: Seq<char>)
    ensures
        ({
            let c = join_path(join_path(dir, "native/lib"@), file);
            &&& ends_with(c, "native/lib/"@ + file)
            &&& starts_with(c, dir)
        }),
{
    reveal_strlit("native/lib");
    reveal_strlit("native/lib/");
    let x = join_path(dir, "native/lib"@);
    let tail = "native/lib/"@ + file;
    if dir.len() == 0 || dir.last() == '/' {
        assert(x == dir + "native/lib"@);
    } else {
        assert(x == dir + seq!['/'] + "native/lib"@);
    }
    assert(x.len() > 0 && x.last() == 'b');
    let c = join_path(x, file);
    assert(c == x + seq!['/'] + file);
    assert(c.subrange(c.len() - tail.len(), c.len() as int) =~= tail);
    assert(c.subrange(0, dir.len() as int) =~= dir);
}

/// Every place the native library is looked for ends in `native/lib/`
/// followed by the system's library file name: `libgopher-orch.dylib` on
/// macOS, `gopher-orch.dll` on Windows, `libgopher-orch.so` elsewhere. The
/// first lies under the executable's directory, the second is
/// `./native/lib/<file>`, the third lies under the project directory.
pub proof fn law_candidates_name_the_library_file(exe_dir: Seq<char>, manifest_dir: Seq<char>, os: TargetOs)
    ensures
        ({
            let c = native_library_candidates_spec(exe_dir, manifest_dir, os);
            let file = match os {
                TargetOs::MacOs => "libgopher-orch.dylib"@,
                TargetOs::Windows => "gopher-orch.dll"@,
                TargetOs::Other => "libgopher-orch.so"@,
            };
            &&& c.len() == 3
            &&& forall|i: int| 0 <= i < 3 ==> ends_with(#[trigger] c[i], "native/lib/"@ + file)
            &&& starts_with(c[0], exe_dir)
            &&& c[1] == "./native/lib/"@ + file
            &&& starts_with(c[2], manifest_dir)
        }),
{
    let c = native_library_candidates_spec(exe_dir, manifest_dir, os);
    let file = native_library_file_spec(os);
    lemma_join_before_native_lib(exe_dir, file);
    lemma_join_before_native_lib(manifest_dir, file);
    reveal_strlit("./native/lib");
    reveal_strlit("./native/lib/");
    reveal_strlit("native/lib/");
    assert(c[1] =~= "./native/lib/"@ + file);
    assert(c[1].subrange(c[1].len() - ("native/lib/"@ + file).len(), c[1].len() as int) =~= "native/lib/"@ + file);
}

/// The path the library is loaded from: the first candidate that exists, or
/// the bare file name (left to the system's search) when none does.
pub open spec fn chosen_library_path(
    candidates: Seq<Seq<char>>,
    exists: Seq<bool>,
    os: TargetOs,
) -> Seq<char>
    decreases candidates.len(),
{
    if candidates.len() == 0 || exists.len() == 0 {
        native_library_file_spec(os)
    } else if exists[0] {
        candidates[0]
    } else {
        chosen_library_path(candidates.drop_first(), exists.drop_first(), os)
    }
}

/// The chosen path is the first candidate that exists, or the bare file
/// name when none exists.
pub proof fn law_chosen_is_first_existing(candidates: Seq<Seq<char>>, exists: Seq<bool>, os: TargetOs)
    requires
        candidates.len() == exists.len(),
    ensures
        (forall|i: int| 0 <= i < exists.len() ==> !#[trigger] exists[i]) ==> chosen_library_path(
            candidates,
            exists,
            os,
        ) == native_library_file_spec(os),
        forall|i: int|
            0 <= i < exists.len() && #[trigger] exists[i] && (forall|j: int| 0 <= j < i ==> !exists[j])
                ==> chosen_library_path(candidates, exists, os) == candidates[i],
    decreases candidates.len(),
{
    if candidates.len() > 0 {
        law_chosen_is_first_existing(candidates.drop_first(), exists.drop_first(), os);
        if forall|i: int| 0 <= i < exists.len() ==> !#[trigger] exists[i] {
            assert(!exists[0]);
            assert forall|i: int| 0 <= i < exists.drop_first().len() implies !#[trigger] exists.drop_first()[i] by {
                assert(!exists[i + 1]);
            }
        }
        assert forall|i: int|
            0 <= i < exists.len() && #[trigger] exists[i] && (forall|j: int| 0 <= j < i ==> !exists[j])
            implies chosen_library_path(candidates, exists, os) == candidates[i] by {
            if i > 0 {
                assert(!exists[0]);
                assert(exists.drop_first()[i - 1]);
                assert forall|j: int| 0 <= j < i - 1 implies !exists.drop_first()[j] by {
                    assert(!exists[j + 1]);
                }
                assert(candidates.drop_first()[i - 1] == candidates[i]);
            }
        }
    }
}

/// The file name of the native orchestration library on a system.
pub fn native_library_file(os: TargetOs) -> (s: String)
    ensures
        s@ == native_library_file_spec(os),
{
    match os {
        TargetOs::MacOs => String::from_str("libgopher-orch.dylib"),
        TargetOs::Windows => String::from_str("gopher-orch.dll"),
        TargetOs::Other => String::from_str("libgopher-orch.so"),
    }
}

/// Joins a relative path onto a directory (see `join_path`).
pub fn join(dir: &str, rest: &str) -> (s: String)
    ensures
        s@ == join_path(dir@, rest@),
{
    let n = dir.unicode_len();
    if n == 0 || dir.get_char(n - 1) == '/' {
        String::from_str(dir).concat(rest)
    } else {
        proof { reveal_strlit("/"); }
        String::from_str(dir).concat("/").concat(rest)
    }
}

/// The places the native library is looked for, in order.
/// `exe_dir` is the directory of the running executable and `manifest_dir`
/// the project directory.
pub fn native_library_candidates(exe_dir: &str, manifest_dir: &str, os: TargetOs) -> (v: Vec<String>)
    ensures
        v@.map_values(|s: String| s@) == native_library_candidates_spec(exe_dir@, manifest_dir@, os),
{
    let file = native_library_file(os);
    let e = join(exe_dir, "native/lib");
    let a = join(e.as_str(), file.as_str());
    let b = join("./native/lib", file.as_str());
    let d = join(manifest_dir, "native/lib");
    let c = join(d.as_str(), file.as_str());
    let v = vec![a, b, c];
    assert(v@.map_values(|s: String| s@) =~= native_library_candidates_spec(exe_dir@, manifest_dir@, os));
    v
}

/// The path the library is loaded from, given which candidates exist: the
/// first existing candidate, or the bare file name when none exists.
pub fn select_library_path(candidates: &Vec<String>, exists: &Vec<bool>, os: TargetOs) -> (s: String)
    requires
        candidates.len() == exists.len(),
    ensures
        s@ == chosen_library_path(candidates@.map_values(|c: String| c@), exists@, os),
{
    let ghost cv = candidates@.map_values(|c: String| c@);
    let mut i: usize = 0;
    assert(cv.skip(0) =~= cv);
    assert(exists@.skip(0) =~= exists@);
    while i < candidates.len()
        invariant
            candidates.len() == exists.len(),
            i <= candidates.len(),
            cv == candidates@.map_values(|c: String| c@),
            chosen_library_path(cv, exists@, os) == chosen_library_path(
                cv.skip(i as int),
                exists@.skip(i as int),
                os,
            ),
        decreases candidates.len() - i,
    {
        assert(cv.skip(i as int).drop_first() =~= cv.skip(i + 1));
        assert(exists@.skip(i as int).drop_first() =~= exists@.skip(i + 1));
        if exists[i] {
            return candidates[i].clone();
        }
        i = i + 1;
    }
    native_library_file(os)
}

} // verus!
