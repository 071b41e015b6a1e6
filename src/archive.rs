use vstd::prelude::*;
use crate::error::{ArchiveShape, SuivmError};
use crate::text::same_bytes;
use vstd::string::StringSliceAdditionalSpecFns;

verus! {

#[verifier::external_type_specification]
#[verifier::external_body]
pub struct ExIoError(std::io::Error);

/// One entry of a release archive: its path and whether it is a regular file.
#[derive(Debug, Clone, PartialEq, Eq)]
pub struct ArchiveEntry {
    pub path: Vec<u8>,
    pub is_file: bool,
}

/// The paths and file flags of a list of archive entries.
pub open spec fn index_view(index: Seq<ArchiveEntry>) -> Seq<(Seq<u8>, bool)> {
    index.map_values(|e: ArchiveEntry| (e.path@, e.is_file))
}

/// The entries (header path, regular file) of the tar archive that the gzip
/// stream `tgz` holds, in archive order and as they stand in the archive,
/// extension headers included; `None` when the stream or the archive cannot
/// be read.
pub uninterp spec fn archive_index_of(tgz: Seq<u8>) -> Option<Seq<(Seq<u8>, bool)>>;

/// Relies on flate2::read::GzDecoder to decompress `tgz`, and on tar's
/// Archive::entries with Entries::raw(true), Entry::path_bytes and
/// EntryType::is_file to list the tar archive it holds. Whether the listing
/// succeeds, and what it lists, depend on the bytes alone. Raw entries are
/// listed as their headers stand: tar then never interprets sparse-file
/// headers, whose sizes it adds up without checking for overflow.
#[verifier::external_body]
fn read_archive_index(tgz: &[u8]) -> (r: Result<Vec<ArchiveEntry>, std::io::Error>)
    ensures
        match archive_index_of(tgz@) {
            Some(ix) => r is Ok && index_view(r->Ok_0@) == ix,
            None => r is Err,
        },
{
    let mut archive = tar::Archive::new(flate2::read::GzDecoder::new(tgz));
    let mut index = Vec::new();
    for entry in archive.entries()?.raw(true) {
        let entry = entry?;
        let path = entry.path_bytes().into_owned();
        let is_file = entry.header().entry_type().is_file();
        index.push(ArchiveEntry { path, is_file });
    }
    Ok(index)
}

/// How many entries of the index have the path `target`.
pub open spec fn match_count(index: Seq<(Seq<u8>, bool)>, target: Seq<u8>) -> nat
    decreases index.len(),
{
    if index.len() == 0 {
        0
    } else {
        match_count(index.drop_last(), target) + if index.last().0 == target {
            1nat
        } else {
            0nat
        }
    }
}

/// The entry of the index that the executable is taken from: the one entry
/// with the path `target`, which must be a regular file.
pub open spec fn select_result(index: Seq<(Seq<u8>, bool)>, target: Seq<u8>) -> Result<
    usize,
    SuivmError,
> {
    let n = match_count(index, target);
    if n == 0 {
        Err(SuivmError::ArchiveShapeMismatch(ArchiveShape::MissingEntry))
    } else if n > 1 {
        Err(SuivmError::ArchiveShapeMismatch(ArchiveShape::DuplicateEntry))
    } else {
        let i = choose|i: int| 0 <= i < index.len() && index[i].0 == target;
        if index[i].1 {
            Ok(i as usize)
        } else {
            Err(SuivmError::ArchiveShapeMismatch(ArchiveShape::NotAFile))
        }
    }
}

proof fn lemma_match_counted(index: Seq<(Seq<u8>, bool)>, target: Seq<u8>, i: int)
    requires
        0 <= i < index.len(),
        index[i].0 == target,
    ensures
        match_count(index, target) >= 1,
    decreases index.len(),
{
    if i < index.len() - 1 {
        lemma_match_counted(index.drop_last(), target, i);
    }
}

proof fn lemma_two_matches(index: Seq<(Seq<u8>, bool)>, target: Seq<u8>, i: int, j: int)
    requires
        0 <= i < j < index.len(),
        index[i].0 == target,
        index[j].0 == target,
    ensures
        match_count(index, target) >= 2,
    decreases index.len(),
{
    if j == index.len() - 1 {
        lemma_match_counted(index.drop_last(), target, i);
    } else {
        lemma_two_matches(index.drop_last(), target, i, j);
    }
}

proof fn lemma_no_match(index: Seq<(Seq<u8>, bool)>, target: Seq<u8>)
    requires
        forall|j: int| 0 <= j < index.len() ==> index[j].0 != target,
    ensures
        match_count(index, target) == 0,
    decreases index.len(),
{
    if index.len() > 0 {
        lemma_no_match(index.drop_last(), target);
    }
}

proof fn lemma_one_match(index: Seq<(Seq<u8>, bool)>, target: Seq<u8>, k: int)
    requires
        0 <= k < index.len(),
        index[k].0 == target,
        forall|j: int| 0 <= j < index.len() && j != k ==> index[j].0 != target,
    ensures
        match_count(index, target) == 1,
    decreases index.len(),
{
    if k == index.len() - 1 {
        lemma_no_match(index.drop_last(), target);
    } else {
        lemma_one_match(index.drop_last(), target, k);
    }
}

/// The position in `index` of the executable at the path `target`: the one
/// entry with that path, when it is a regular file. No entry, two entries, or
/// an entry that is no regular file is a mismatch of the archive's shape.
pub fn select_entry(index: &Vec<ArchiveEntry>, target: &[u8]) -> (r: Result<usize, SuivmError>)
    ensures
        r == select_result(index_view(index@), target@),
{
    let ghost iv = index_view(index@);
    let mut found: Option<usize> = None;
    let mut i: usize = 0;
    while i < index.len()
        invariant
            iv == index_view(index@),
            i <= index@.len(),
            match found {
                None => forall|j: int| 0 <= j < i ==> iv[j].0 != target@,
                Some(k) => k < i && iv[k as int].0 == target@ && forall|j: int|
                    0 <= j < i && j != k ==> iv[j].0 != target@,
            },
        decreases index@.len() - i,
    {
        if same_bytes(index[i].path.as_slice(), target) {
            assert(iv[i as int].0 == target@);
            match found {
                Some(k) => {
                    proof {
                        lemma_two_matches(iv, target@, k as int, i as int);
                    }
                    return Err(SuivmError::ArchiveShapeMismatch(ArchiveShape::DuplicateEntry));
                },
                None => {
                    found = Some(i);
                },
            }
        }
        i = i + 1;
    }
    match found {
        None => {
            proof {
                lemma_no_match(iv, target@);
            }
            Err(SuivmError::ArchiveShapeMismatch(ArchiveShape::MissingEntry))
        },
        Some(k) => {
            proof {
                lemma_one_match(iv, target@, k as int);
                let c = choose|c: int| 0 <= c < iv.len() && iv[c].0 == target@;
                assert(c == k);
            }
            if index[k].is_file {
                Ok(k)
            } else {
                Err(SuivmError::ArchiveShapeMismatch(ArchiveShape::NotAFile))
            }
        },
    }
}

/// The position of the executable at the path `target` among the raw
/// entries of the release archive `tgz`, a gzip-compressed tar archive:
/// `ArchiveUnreadable` when the archive cannot be read, and otherwise as
/// `select_entry` decides on its entries.
pub fn locate_artifact(tgz: &[u8], target: &str) -> (r: Result<usize, SuivmError>)
    ensures
        match archive_index_of(tgz@) {
            Some(ix) => r == select_result(ix, target.spec_bytes()),
            None => r is Err && r->Err_0 is ArchiveUnreadable,
        },
{
    match read_archive_index(tgz) {
        Ok(index) => select_entry(&index, target.as_bytes()),
        Err(e) => Err(SuivmError::ArchiveUnreadable(e.to_string())),
    }
}

/// The permission bits of `mode` with the owner's execute bit set.
pub fn executable_mode(mode: u32) -> (r: u32)
    ensures
        r == mode | 0o100u32,
{
    mode | 0o100u32
}

} // verus!
