use vstd::prelude::*;
use vstd::string::StringExecFns;
use crate::text::starts_with_char;
use vstd::string::StrSliceExecFns;

verus! {

/// The directory below the home directory that holds the store.
pub open spec fn store_dir_name() -> Seq<char> {
    seq!['.', 's', 'u', 'i', 'v', 'm']
}

/// `dir` and `name` joined by a path separator.
pub open spec fn join_spec(dir: Seq<char>, name: Seq<char>) -> Seq<char> {
    dir + seq!['/'] + name
}

/// `dir` and `name` joined by a path separator.
pub fn join(dir: &str, name: &str) -> (r: String)
    ensures
        r@ == join_spec(dir@, name@),
{
    proof {
        reveal_strlit("/");
    }
    let mut r = String::from_str(dir);
    r.append("/");
    r.append(name);
    r
}

/// The root of the store for the given home directory.
pub fn directory_suivm(home: &str) -> (r: String)
    ensures
        r@ == join_spec(home@, store_dir_name()),
{
    proof {
        reveal_strlit(".suivm");
    }
    join(home, ".suivm")
}

/// The directory of a store that holds one executable per installed version.
pub fn directory_bin(root: &str) -> (r: String)
    ensures
        r@ == join_spec(root@, seq!['b', 'i', 'n']),
{
    proof {
        reveal_strlit("bin");
    }
    join(root, "bin")
}

/// The file of a store that holds the current version.
pub fn path_version(root: &str) -> (r: String)
    ensures
        r@ == join_spec(root@, seq!['.', 'v', 'e', 'r', 's', 'i', 'o', 'n']),
{
    proof {
        reveal_strlit(".version");
    }
    join(root, ".version")
}

/// Where a store writes a new current version before it replaces the
/// pointer file in one rename.
pub fn path_version_staging(root: &str) -> (r: String)
    ensures
        r@ == join_spec(root@, seq!['.', 'v', 'e', 'r', 's', 'i', 'o', 'n', '.', 'n', 'e', 'w']),
{
    proof {
        reveal_strlit(".version.new");
    }
    join(root, ".version.new")
}

/// The hidden directory of a store under which a build from source places its
/// binary, out of sight of the installed versions.
pub fn path_build_root(root: &str) -> (r: String)
    ensures
        r@ == join_spec(root@, seq!['.', 'b', 'u', 'i', 'l', 'd']),
{
    proof {
        reveal_strlit(".build");
    }
    join(root, ".build")
}

/// Where a build from source leaves the binary, below the build root.
pub fn path_build_output(root: &str) -> (r: String)
    ensures
        r@ == join_spec(
            join_spec(join_spec(root@, seq!['.', 'b', 'u', 'i', 'l', 'd']), seq!['b', 'i', 'n']),
            seq!['s', 'u', 'i'],
        ),
{
    proof {
        reveal_strlit("sui");
    }
    let build = path_build_root(root);
    path_bin(build.as_str(), "sui")
}

/// Where a store keeps the executable of `version`.
pub fn path_bin(root: &str, version: &str) -> (r: String)
    ensures
        r@ == join_spec(join_spec(root@, seq!['b', 'i', 'n']), version@),
{
    let bin = directory_bin(root);
    join(bin.as_str(), version)
}

/// Whether a name in the bin directory is hidden, that is, an artifact being
/// written rather than an installed version.
pub open spec fn is_hidden_name(name: Seq<char>) -> bool {
    name.len() > 0 && name[0] == '.'
}

/// Whether a name can be an installed version: it is not empty, not hidden,
/// and holds no path separator.
pub open spec fn is_store_name_spec(name: Seq<char>) -> bool {
    &&& name.len() > 0
    &&& !is_hidden_name(name)
    &&& forall|i: int| 0 <= i < name.len() ==> name[i] != '/' && name[i] != '\\'
}

/// Whether a name can be an installed version: it is not empty, not hidden,
/// and holds no path separator.
pub fn is_store_name(name: &str) -> (r: bool)
    ensures
        r == is_store_name_spec(name@),
{
    let n = name.unicode_len();
    if n == 0 || name.get_char(0) == '.' {
        return false;
    }
    let mut i: usize = 0;
    while i < n
        invariant
            n == name@.len(),
            i <= n,
            forall|j: int| 0 <= j < i ==> name@[j] != '/' && name@[j] != '\\',
        decreases n - i,
    {
        let c = name.get_char(i);
        if c == '/' || c == '\\' {
            return false;
        }
        i = i + 1;
    }
    true
}

/// The hidden name under which the artifact of `version` is written before it
/// is moved into place.
pub open spec fn staging_name_spec(version: Seq<char>) -> Seq<char> {
    seq!['.'] + version
}

/// The hidden name under which the artifact of `version` is written before it
/// is moved into place.
pub fn staging_name(version: &str) -> (r: String)
    ensures
        r@ == staging_name_spec(version@),
        is_hidden_name(r@),
{
    proof {
        reveal_strlit(".");
    }
    let mut r = String::from_str(".");
    r.append(version);
    r
}

/// Where a store writes the artifact of `version` before it is moved into place.
pub fn path_staging(root: &str, version: &str) -> (r: String)
    ensures
        r@ == join_spec(join_spec(root@, seq!['b', 'i', 'n']), staging_name_spec(version@)),
{
    let bin = directory_bin(root);
    let name = staging_name(version);
    join(bin.as_str(), name.as_str())
}

/// The current version recorded by the pointer file's contents: none when the
/// file is empty.
pub fn current_version(contents: String) -> (r: Option<String>)
    ensures
        contents@.len() == 0 ==> r is None,
        contents@.len() > 0 ==> r == Some(contents),
{
    if contents.as_str().unicode_len() == 0 {
        None
    } else {
        Some(contents)
    }
}

/// One entry of the bin directory, as the filesystem reports it.
#[derive(Debug, Clone, PartialEq, Eq)]
pub struct StoreEntry {
    /// The entry's name, or `None` when it is not valid Unicode.
    pub name: Option<String>,
    /// Whether the entry is a regular file.
    pub is_file: bool,
}

/// Whether an entry of the bin directory is an installed version.
pub open spec fn is_installed_entry(e: StoreEntry) -> bool {
    e.is_file && e.name is Some && !is_hidden_name(e.name->0@)
}

/// The installed versions among the entries of the bin directory, in order.
pub open spec fn installed_spec(entries: Seq<StoreEntry>) -> Seq<Seq<char>>
    decreases entries.len(),
{
    if entries.len() == 0 {
        Seq::empty()
    } else {
        let prev = installed_spec(entries.drop_last());
        let e = entries.last();
        if is_installed_entry(e) {
            prev.push(e.name->0@)
        } else {
            prev
        }
    }
}

/// The installed versions among the entries of the bin directory: the regular
/// files with a Unicode name that is not hidden, in the order given.
pub fn fetch_installed_versions(entries: &Vec<StoreEntry>) -> (r: Vec<String>)
    ensures
        r@.map_values(|s: String| s@) == installed_spec(entries@),
        forall|i: int| 0 <= i < r@.len() ==> !is_hidden_name(#[trigger] r@[i]@),
{
    let mut out: Vec<String> = Vec::new();
    let mut i: usize = 0;
    while i < entries.len()
        invariant
            i <= entries@.len(),
            out@.map_values(|s: String| s@) == installed_spec(entries@.subrange(0, i as int)),
            forall|j: int| 0 <= j < out@.len() ==> !is_hidden_name(#[trigger] out@[j]@),
        decreases entries@.len() - i,
    {
        let e = &entries[i];
        proof {
            assert(entries@.subrange(0, i + 1).drop_last() == entries@.subrange(0, i as int));
        }
        if e.is_file {
            match &e.name {
                Some(name) => {
                    if !starts_with_char(name.as_str(), '.') {
                        out.push(name.clone());
                        proof {
                            assert(out@.map_values(|s: String| s@) == installed_spec(
                                entries@.subrange(0, i as int),
                            ).push(name@));
                        }
                    }
                },
                None => {},
            }
        }
        i = i + 1;
    }
    assert(entries@.subrange(0, entries@.len() as int) == entries@);
    out
}

} // verus!
