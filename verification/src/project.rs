//! Finding the sources of a project, and small identifiers.
use vstd::prelude::*;
use crate::text::{contains_str, contains_text, hex_text, radix_digits, sort_texts, texts_sorted};

verus! {

/// Whether a TypeScript file is an entry point: it declares `class Target`.
pub fn is_target_source(content: &str) -> (r: bool)
    ensures
        r == contains_text(content@, "class Target"@),
{
    contains_str(content, "class Target")
}

fn same_text(a: &str, b: &str) -> (r: bool)
    ensures
        r == (a@ == b@),
{
    a.to_string() == b.to_string()
}

/// Directories that the search for entry points does not enter.
pub open spec fn ignored_dir_name(name: Seq<char>) -> bool {
    name == "node_modules"@ || name == ".git"@ || name == "dist"@ || name == "build"@
}

/// Whether the search for entry points skips a directory with this name.
pub fn is_ignored_dir_name(name: &str) -> (r: bool)
    ensures
        r == ignored_dir_name(name@),
{
    same_text(name, "node_modules") || same_text(name, ".git") || same_text(name, "dist")
        || same_text(name, "build")
}

/// Whether a file with this extension is read as TypeScript (`ts` or `tsx`).
pub fn is_typescript_extension(ext: &str) -> (r: bool)
    ensures
        r == (ext@ == "ts"@ || ext@ == "tsx"@),
{
    same_text(ext, "ts") || same_text(ext, "tsx")
}

/// An entry met while searching a source tree for entry points.
#[derive(Clone, Debug, PartialEq)]
pub struct SourceEntry {
    /// The entry's path, as text.
    pub path: String,
    /// Whether it is a directory.
    pub is_dir: bool,
    /// Its last path component, where it has one.
    pub name: Option<String>,
    /// Its extension, where it has one.
    pub extension: Option<String>,
}

/// What the search for entry points does next with an entry it keeps.
#[derive(Clone, Debug, PartialEq)]
pub enum SourceStep {
    /// Search the directory at this path.
    Descend(String),
    /// Read the TypeScript file at this path and keep it if it declares
    /// `class Target`.
    Read(String),
}

/// The step for one entry: directories are searched unless their name is
/// ignored; files with a TypeScript extension are read; anything else is
/// passed over (`None`).
pub open spec fn step_for(e: SourceEntry) -> Option<SourceStep> {
    if e.is_dir {
        if e.name matches Some(n) && ignored_dir_name(n@) {
            None
        } else {
            Some(SourceStep::Descend(e.path))
        }
    } else if e.extension matches Some(x) && (x@ == "ts"@ || x@ == "tsx"@) {
        Some(SourceStep::Read(e.path))
    } else {
        None
    }
}

/// The steps for the entries of `s` that are not passed over, in order.
pub open spec fn source_steps(s: Seq<SourceEntry>) -> Seq<SourceStep>
    decreases s.len(),
{
    if s.len() == 0 {
        Seq::empty()
    } else {
        match step_for(s.last()) {
            Some(step) => source_steps(s.drop_last()).push(step),
            None => source_steps(s.drop_last()),
        }
    }
}

/// Plans the search of one directory listing for entry points: which
/// subdirectories to search and which files to read, in listing order.
pub fn plan_directory(entries: Vec<SourceEntry>) -> (r: Vec<SourceStep>)
    ensures
        r@ == source_steps(entries@),
{
    let mut steps: Vec<SourceStep> = Vec::new();
    let mut i: usize = 0;
    while i < entries.len()
        invariant
            i <= entries.len(),
            steps@ == source_steps(entries@.take(i as int)),
        decreases entries.len() - i,
    {
        assert(entries@.take(i + 1).drop_last() =~= entries@.take(i as int));
        let e = &entries[i];
        if e.is_dir {
            let ignored = match &e.name {
                Some(n) => is_ignored_dir_name(n.as_str()),
                None => false,
            };
            if !ignored {
                steps.push(SourceStep::Descend(e.path.clone()));
            }
        } else {
            let typescript = match &e.extension {
                Some(x) => is_typescript_extension(x.as_str()),
                None => false,
            };
            if typescript {
                steps.push(SourceStep::Read(e.path.clone()));
            }
        }
        i += 1;
    }
    assert(entries@.take(entries.len() as int) =~= entries@);
    steps
}

/// An entry of a directory listing.
#[derive(Clone, Debug, PartialEq)]
pub struct DirEntryInfo {
    /// The entry's path, as text.
    pub path: String,
    /// Whether it is a regular file.
    pub is_file: bool,
    /// Its extension, where it has one.
    pub extension: Option<String>,
}

/// Whether a directory entry is a built source to benchmark: a file ending in `.mana`.
pub open spec fn is_script_entry(e: DirEntryInfo) -> bool {
    e.is_file && (e.extension matches Some(x) && x@ == "mana"@)
}

/// The paths of the script entries among `s`, in order.
pub open spec fn script_paths(s: Seq<DirEntryInfo>) -> Seq<String>
    decreases s.len(),
{
    if s.len() == 0 {
        Seq::empty()
    } else if is_script_entry(s.last()) {
        script_paths(s.drop_last()).push(s.last().path)
    } else {
        script_paths(s.drop_last())
    }
}

/// The built sources (`.mana` files) of a directory listing, sorted by path.
pub fn select_script_files(entries: Vec<DirEntryInfo>) -> (r: Vec<String>)
    ensures
        r@.to_multiset() == script_paths(entries@).to_multiset(),
        texts_sorted(r@),
{
    let mut picked: Vec<String> = Vec::new();
    let mut i: usize = 0;
    while i < entries.len()
        invariant
            i <= entries.len(),
            picked@ == script_paths(entries@.take(i as int)),
        decreases entries.len() - i,
    {
        assert(entries@.take(i + 1).drop_last() =~= entries@.take(i as int));
        let e = &entries[i];
        let keep = e.is_file && match &e.extension {
            Some(x) => same_text(x.as_str(), "mana"),
            None => false,
        };
        if keep {
            picked.push(e.path.clone());
        }
        i += 1;
    }
    assert(entries@.take(entries.len() as int) =~= entries@);
    sort_texts(picked)
}

#[verifier::external_type_specification]
#[verifier::external_body]
pub struct ExSystemTime(std::time::SystemTime);

/// The system clock's reading, as `SystemTime::now`. Nothing is claimed of it.
#[verifier::external_body]
fn system_now() -> std::time::SystemTime {
    std::time::SystemTime::now()
}

/// Nanoseconds from the Unix epoch to `t`, as `SystemTime::duration_since`
/// measures them; `None` where `t` is earlier than the epoch. Nothing is
/// claimed of the result.
#[verifier::external_body]
fn nanos_since_epoch(t: &std::time::SystemTime) -> Option<u128> {
    t.duration_since(std::time::UNIX_EPOCH).ok().map(|d| d.as_nanos())
}

/// The identifier for a clock reading of `nanos` nanoseconds: the reading
/// modulo 0xFFFFFFFF in lower-case hexadecimal.
pub open spec fn uuid_text(nanos: u128) -> Seq<char> {
    radix_digits((nanos % 0xFFFF_FFFF) as nat, 16)
}

/// The short identifier made from a clock reading of `nanos` nanoseconds.
pub fn uuid_from_nanos(nanos: u128) -> (r: String)
    ensures
        r@ == uuid_text(nanos),
{
    hex_text(nanos % 0xFFFF_FFFF)
}

/// A short identifier from the system clock; `None` where the clock reads
/// earlier than the Unix epoch.
pub fn generate_uuid() -> (r: Option<String>)
    ensures
        r matches Some(s) ==> exists|n: u128| s@ == #[trigger] uuid_text(n),
{
    let now = system_now();
    match nanos_since_epoch(&now) {
        Some(n) => {
            let s = uuid_from_nanos(n);
            assert(s@ == uuid_text(n));
            Some(s)
        },
        None => None,
    }
}

/// The first `n` characters of `s` (all of it where it is shorter).
pub fn preview_chars(s: &str, n: usize) -> (r: String)
    ensures
        r@ == s@.take(if n < s@.len() { n as int } else { s@.len() as int }),
{
    let cs = crate::text::chars_of(s);
    let mut out: Vec<char> = Vec::new();
    let mut i: usize = 0;
    while i < n && i < cs.len()
        invariant
            i <= cs.len(),
            i <= n,
            cs@ == s@,
            out@ == cs@.take(i as int),
        decreases cs.len() - i,
    {
        out.push(cs[i]);
        assert(cs@.take(i as int).push(cs@[i as int]) =~= cs@.take(i + 1));
        i += 1;
    }
    crate::text::string_from_chars(&out)
}

} // verus!
