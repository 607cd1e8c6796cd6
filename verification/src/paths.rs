//! File-system paths as text, through `std::path`.
use vstd::prelude::*;

verus! {

/// Whether `Path::is_absolute` holds of `p` under the path rules of the target
/// the library is built for.
pub uninterp spec fn path_is_absolute(p: Seq<char>) -> bool;

/// The text of `Path::join(base, p)` under the path rules of the target.
pub uninterp spec fn path_join(base: Seq<char>, p: Seq<char>) -> Seq<char>;

/// The text of `Path::parent(p)` under the path rules of the target.
pub uninterp spec fn path_parent(p: Seq<char>) -> Option<Seq<char>>;

/// `Path::is_absolute`: whether `p` is independent of the current directory.
/// The result is named; nothing more is claimed of it.
#[verifier::external_body]
pub(crate) fn is_absolute_path(p: &str) -> (r: bool)
    ensures
        r == path_is_absolute(p@),
{
    std::path::Path::new(p).is_absolute()
}

/// `Path::join`: `p` adjoined to `base`, read back as text. The result is named;
/// nothing more is claimed of it.
#[verifier::external_body]
pub(crate) fn join_path(base: &str, p: &str) -> (r: String)
    ensures
        r@ == path_join(base@, p@),
{
    std::path::Path::new(base).join(p).to_string_lossy().into_owned()
}

/// `Path::parent`: `p` without its last component, read back as text; `None`
/// where `p` has no parent. The result is named; nothing more is claimed of it.
#[verifier::external_body]
pub(crate) fn parent_path(p: &str) -> (r: Option<String>)
    ensures
        match r {
            Some(q) => path_parent(p@) == Some(q@),
            None => path_parent(p@) is None,
        },
{
    std::path::Path::new(p).parent().map(|q| q.to_string_lossy().into_owned())
}

/// `p` made absolute against the directory `cwd`.
pub open spec fn absolute_from(p: Seq<char>, cwd: Seq<char>) -> Seq<char> {
    if path_is_absolute(p) {
        p
    } else {
        path_join(cwd, p)
    }
}

/// `p` made absolute against the directory `cwd` (as `cwd.join(p)` where `p`
/// is relative).
pub fn absolute_path(p: &str, cwd: &str) -> (r: String)
    ensures
        r@ == absolute_from(p@, cwd@),
{
    if is_absolute_path(p) {
        p.to_string()
    } else {
        join_path(cwd, p)
    }
}

/// The parent directory of `p`, or `p` itself where it has none.
pub open spec fn parent_or_self(p: Seq<char>) -> Seq<char> {
    match path_parent(p) {
        Some(q) => q,
        None => p,
    }
}

/// The directory where the watcher writes its intermediate files: `.mana-temp`
/// at the project root, the parent of the absolute source directory.
pub open spec fn temp_dir_of(source: Seq<char>, cwd: Seq<char>) -> Seq<char> {
    path_join(parent_or_self(absolute_from(source, cwd)), ".mana-temp"@)
}

/// The watcher's intermediate directory for the source directory `source`,
/// with relative paths taken against `cwd`.
pub fn project_temp_dir(source: &str, cwd: &str) -> (r: String)
    ensures
        r@ == temp_dir_of(source@, cwd@),
{
    let abs = absolute_path(source, cwd);
    let root = match parent_path(abs.as_str()) {
        Some(q) => q,
        None => abs,
    };
    join_path(root.as_str(), ".mana-temp")
}

/// The output directory of a build: `output` as given where it is absolute,
/// else under `base`; without `output`, `folder` (by default `dist`) under `base`.
pub open spec fn output_dir_of(
    base: Seq<char>,
    output: Option<String>,
    folder: Option<String>,
) -> Seq<char> {
    match output {
        Some(o) => if path_is_absolute(o@) {
            o@
        } else {
            path_join(base, o@)
        },
        None => path_join(
            base,
            match folder {
                Some(f) => f@,
                None => "dist"@,
            },
        ),
    }
}

/// The output directory of a build from the `--output` and `--folder` options,
/// with relative paths taken against `base`; `--output` takes priority.
pub fn resolve_output_dir(base: &str, output: Option<String>, folder: Option<String>) -> (r: String)
    ensures
        r@ == output_dir_of(base@, output, folder),
{
    match output {
        Some(o) => {
            if is_absolute_path(o.as_str()) {
                o
            } else {
                join_path(base, o.as_str())
            }
        },
        None => {
            let f = match folder {
                Some(f) => f,
                None => "dist".to_string(),
            };
            join_path(base, f.as_str())
        },
    }
}

} // verus!
