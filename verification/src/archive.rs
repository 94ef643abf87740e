//! Reading release archives held in memory.
//!
//! A transcoder release is a zip archive or an xz-compressed tar archive;
//! exactly one entry of it — the executable — is wanted.  The archive
//! crates do the decoding; which entry is the executable, and that the
//! first matching one wins, is verified selection logic here.  An archive
//! is always a byte vector already in memory, so every operation is a pure
//! function of those bytes.
//!
//! An entry is modelled as a triple of its name, whether it is a regular
//! file, and its contents; a tar entry's name is its path, decoded
//! lossily.

use vstd::prelude::*;

use crate::install::InstallError;
use crate::text::{
    chars_eq, rfind, spec_rfind, spec_trim_end_char, str_chars, subvec, trim_end_char,
};

verus! {

/// The entries the given bytes parse to as a zip archive, or nothing when
/// they are not one.
pub uninterp spec fn zip_entries_of(bytes: Seq<u8>) -> Option<Seq<(Seq<char>, bool, Seq<u8>)>>;

/// The zip entry at this index can be opened and its contents
/// decompressed without error: like the entry itself, a function of the
/// archive's bytes alone.
pub uninterp spec fn zip_entry_readable(bytes: Seq<u8>, i: int) -> bool;

/// The decompressed payload of the given bytes as an xz stream, or
/// nothing when they are not one.
pub uninterp spec fn xz_decoded(bytes: Seq<u8>) -> Option<Seq<u8>>;

/// The entries the given bytes hold as a tar stream, in order: name,
/// regular-file flag, contents.  The list ends where the stream ends or
/// its first format error sits.
pub uninterp spec fn tar_entries_of(bytes: Seq<u8>) -> Seq<(Seq<char>, bool, Seq<u8>)>;

/// Stepping the tar stream to this entry position yields an entry that
/// can be named and read, or the clean end of the stream, without error:
/// a function of the stream's bytes alone.
pub uninterp spec fn tar_entry_readable(bytes: Seq<u8>, i: int) -> bool;

/// Relies on `zip::ZipArchive::new` and `ZipArchive::len`: whether bytes
/// parse as a zip archive, and how many entries the archive has, are
/// functions of the bytes alone.
#[verifier::external_body]
fn zip_entry_count(bytes: &Vec<u8>) -> (r: Result<usize, InstallError>)
    ensures
        match r {
            Ok(n) => zip_entries_of(bytes@) is Some && n == zip_entries_of(bytes@)->0.len(),
            Err(e) => e == InstallError::ArchiveUnreadable && zip_entries_of(bytes@) is None,
        },
{
    match zip::ZipArchive::new(std::io::Cursor::new(bytes.clone())) {
        Ok(archive) => Ok(archive.len()),
        Err(_) => Err(InstallError::ArchiveUnreadable),
    }
}

/// Relies on `zip::ZipArchive::new`, `ZipArchive::by_index` and the entry
/// accessors `name`, `is_file` and `Read::read_to_end`: which entry sits
/// at an index, whether it can be read, and its name, kind and
/// decompressed contents are all functions of the archive's bytes alone.
/// It fails exactly when the indexed entry is unreadable.
#[verifier::external_body]
fn zip_entry(bytes: &Vec<u8>, index: usize) -> (r: Result<(String, bool, Vec<u8>), InstallError>)
    requires
        zip_entries_of(bytes@) is Some,
        index < zip_entries_of(bytes@)->0.len(),
    ensures
        match r {
            Ok(entry) => zip_entry_readable(bytes@, index as int) && (
                entry.0@,
                entry.1,
                entry.2@,
            ) == zip_entries_of(bytes@)->0[index as int],
            Err(e) => e == InstallError::ArchiveUnreadable && !zip_entry_readable(
                bytes@,
                index as int,
            ),
        },
{
    let mut archive = zip::ZipArchive::new(std::io::Cursor::new(bytes.clone()))
        .map_err(|_| InstallError::ArchiveUnreadable)?;
    let mut f = archive.by_index(index).map_err(|_| InstallError::ArchiveUnreadable)?;
    let name = f.name().to_string();
    let is_file = f.is_file();
    let mut data = Vec::new();
    std::io::Read::read_to_end(&mut f, &mut data).map_err(|_| InstallError::ArchiveUnreadable)?;
    Ok((name, is_file, data))
}

/// Relies on `xz2::read::XzDecoder` and `Read::read_to_end`:
/// decompressing an in-memory xz stream succeeds or fails, and yields its
/// payload, as a function of the bytes alone.
#[verifier::external_body]
fn xz_decode(bytes: &Vec<u8>) -> (r: Result<Vec<u8>, InstallError>)
    ensures
        match r {
            Ok(d) => xz_decoded(bytes@) == Some(d@),
            Err(e) => e == InstallError::ArchiveUnreadable && xz_decoded(bytes@) is None,
        },
{
    let mut decoder = xz2::read::XzDecoder::new(std::io::Cursor::new(bytes.as_slice()));
    let mut out = Vec::new();
    match std::io::Read::read_to_end(&mut decoder, &mut out) {
        Ok(_) => Ok(out),
        Err(_) => Err(InstallError::ArchiveUnreadable),
    }
}

/// Relies on `tar::Archive::entries` yielding the entries of an in-memory
/// tar stream in order, with `Iterator::nth` advancing through them, and
/// on the entry accessors `path`, `header().entry_type().is_file` and
/// `Read::read_to_end`: all are functions of the stream's bytes alone.
/// It fails exactly when the indexed entry position is unreadable; after
/// a format error the iteration ends, so positions beyond one report the
/// end of the list.  Every entry occupies at least a 512-byte header
/// block of the stream, so there are no more entries than bytes.
#[verifier::external_body]
fn tar_entry(bytes: &Vec<u8>, index: usize) -> (r: Result<
    Option<(String, bool, Vec<u8>)>,
    InstallError,
>)
    ensures
        match r {
            Ok(found) => match found {
                Some(entry) => index < tar_entries_of(bytes@).len() && tar_entries_of(
                    bytes@,
                ).len() <= bytes@.len() && (entry.0@, entry.1, entry.2@) == tar_entries_of(
                    bytes@,
                )[index as int],
                None => index >= tar_entries_of(bytes@).len(),
            },
            Err(e) => e == InstallError::ArchiveUnreadable && !tar_entry_readable(
                bytes@,
                index as int,
            ),
        },
{
    let mut archive = tar::Archive::new(std::io::Cursor::new(bytes.as_slice()));
    let mut entries = archive.entries().map_err(|_| InstallError::ArchiveUnreadable)?;
    match entries.nth(index) {
        None => Ok(None),
        Some(next) => {
            let mut entry = next.map_err(|_| InstallError::ArchiveUnreadable)?;
            let name =
                entry.path().map_err(|_| InstallError::ArchiveUnreadable)?.to_string_lossy().into_owned();
            let is_file = entry.header().entry_type().is_file();
            let mut data = Vec::new();
            std::io::Read::read_to_end(&mut entry, &mut data).map_err(|_| InstallError::ArchiveUnreadable)?;
            Ok(Some((name, is_file, data)))
        },
    }
}

/// A zip entry is the wanted executable when it is a regular file whose
/// path's file name equals the expected executable name exactly: the
/// match is on the name at the tail of the path, never on the rest of
/// the path.
pub open spec fn zip_entry_matches(entry: (Seq<char>, bool, Seq<u8>), name: Seq<char>) -> bool {
    entry.1 && spec_file_name(entry.0) == name
}

/// The index of the first matching zip entry from `i` on, if any.
pub open spec fn spec_zip_match_from(
    entries: Seq<(Seq<char>, bool, Seq<u8>)>,
    name: Seq<char>,
    i: int,
) -> Option<int>
    decreases entries.len() - i,
{
    if i < 0 || i >= entries.len() {
        None
    } else if zip_entry_matches(entries[i], name) {
        Some(i)
    } else {
        spec_zip_match_from(entries, name, i + 1)
    }
}

/// The first matching entry of a zip archive's entry list.
pub open spec fn spec_first_zip_match(
    entries: Seq<(Seq<char>, bool, Seq<u8>)>,
    name: Seq<char>,
) -> Option<int> {
    spec_zip_match_from(entries, name, 0)
}

proof fn lemma_zip_match_props(entries: Seq<(Seq<char>, bool, Seq<u8>)>, name: Seq<char>, i: int)
    requires
        0 <= i,
    ensures
        match spec_zip_match_from(entries, name, i) {
            Some(j) => i <= j < entries.len() && zip_entry_matches(entries[j], name)
                && forall|k: int| i <= k < j ==> !zip_entry_matches(#[trigger] entries[k], name),
            None => forall|k: int|
                i <= k < entries.len() ==> !zip_entry_matches(#[trigger] entries[k], name),
        },
    decreases entries.len() - i,
{
    if i >= entries.len() {
    } else if zip_entry_matches(entries[i], name) {
    } else {
        lemma_zip_match_props(entries, name, i + 1);
    }
}

/// The file name of an entry path: the segment after the last `/`, with
/// trailing slashes ignored.
pub open spec fn spec_file_name(path: Seq<char>) -> Seq<char> {
    let p = spec_trim_end_char(path, '/');
    match spec_rfind(p, seq!['/']) {
        Some(i) => p.subrange(i + 1, p.len() as int),
        None => p,
    }
}

/// A tar entry is the wanted executable when its path's file name equals
/// the expected executable name.
pub open spec fn tar_entry_matches(entry: (Seq<char>, bool, Seq<u8>), name: Seq<char>) -> bool {
    spec_file_name(entry.0) == name
}

/// The index of the first matching tar entry from `i` on, if any.
pub open spec fn spec_tar_match_from(
    entries: Seq<(Seq<char>, bool, Seq<u8>)>,
    name: Seq<char>,
    i: int,
) -> Option<int>
    decreases entries.len() - i,
{
    if i < 0 || i >= entries.len() {
        None
    } else if tar_entry_matches(entries[i], name) {
        Some(i)
    } else {
        spec_tar_match_from(entries, name, i + 1)
    }
}

/// The first matching entry of a tar stream's entry list.
pub open spec fn spec_first_tar_match(
    entries: Seq<(Seq<char>, bool, Seq<u8>)>,
    name: Seq<char>,
) -> Option<int> {
    spec_tar_match_from(entries, name, 0)
}

proof fn lemma_tar_match_props(entries: Seq<(Seq<char>, bool, Seq<u8>)>, name: Seq<char>, i: int)
    requires
        0 <= i,
    ensures
        match spec_tar_match_from(entries, name, i) {
            Some(j) => i <= j < entries.len() && tar_entry_matches(entries[j], name)
                && forall|k: int| i <= k < j ==> !tar_entry_matches(#[trigger] entries[k], name),
            None => forall|k: int|
                i <= k < entries.len() ==> !tar_entry_matches(#[trigger] entries[k], name),
        },
    decreases entries.len() - i,
{
    if i >= entries.len() {
    } else if tar_entry_matches(entries[i], name) {
    } else {
        lemma_tar_match_props(entries, name, i + 1);
    }
}

/// Extracts the file name of an entry path.
pub fn file_name_of(path: &Vec<char>) -> (r: Vec<char>)
    ensures
        r@ == spec_file_name(path@),
{
    let p = trim_end_char(path, '/');
    let plen: usize = p.len();
    let mut slash: Vec<char> = Vec::new();
    slash.push('/');
    proof {
        assert(slash@ =~= seq!['/']);
    }
    match rfind(&p, &slash) {
        Some(i) => subvec(&p, i + 1, plen),
        None => subvec(&p, 0, plen),
    }
}

/// `data` is what extracting `name` from the zip archive `bytes` must
/// return: the contents of the first matching entry.
pub open spec fn zip_extraction_ok(bytes: Seq<u8>, name: Seq<char>, data: Seq<u8>) -> bool {
    zip_entries_of(bytes) is Some && {
        let entries = zip_entries_of(bytes)->0;
        spec_first_zip_match(entries, name) is Some && data == entries[
            spec_first_zip_match(entries, name)->0
        ].2
    }
}

/// The zip archive cannot be read as far as the extraction of `name`
/// must go: the bytes are not a zip archive at all, or some entry at or
/// before the first matching one is unreadable.
pub open spec fn zip_read_fails(bytes: Seq<u8>, name: Seq<char>) -> bool {
    ||| zip_entries_of(bytes) is None
    ||| (zip_entries_of(bytes) is Some && exists|i: int|
        {
            let entries = zip_entries_of(bytes)->0;
            &&& 0 <= i < entries.len()
            &&& !(#[trigger] zip_entry_readable(bytes, i))
            &&& match spec_first_zip_match(entries, name) {
                Some(m) => i <= m,
                None => true,
            }
        })
}

/// `e` is a permissible failure of extracting `name` from the zip archive
/// `bytes`: the unreadable-archive error exactly when the archive cannot
/// be read as far as the extraction must go, and the missing-executable
/// error exactly when the archive parses and no entry matches.
pub open spec fn zip_extraction_err(bytes: Seq<u8>, name: Seq<char>, e: InstallError) -> bool {
    ||| (e == InstallError::ArchiveUnreadable && zip_read_fails(bytes, name))
    ||| (e == InstallError::ExecutableNotFound && zip_entries_of(bytes) is Some
        && spec_first_zip_match(zip_entries_of(bytes)->0, name) is None)
}

/// `data` is what extracting `name` from the xz-compressed tar archive
/// `bytes` must return: the contents of the first matching entry.
pub open spec fn tar_extraction_ok(bytes: Seq<u8>, name: Seq<char>, data: Seq<u8>) -> bool {
    xz_decoded(bytes) is Some && {
        let entries = tar_entries_of(xz_decoded(bytes)->0);
        spec_first_tar_match(entries, name) is Some && data == entries[
            spec_first_tar_match(entries, name)->0
        ].2
    }
}

/// The xz-compressed tar archive cannot be read as far as the extraction
/// of `name` must go: the bytes are not an xz stream, or some entry
/// position at or before the first matching entry — or, with no match,
/// up to and including the stream's end position — is unreadable.
pub open spec fn tar_read_fails(bytes: Seq<u8>, name: Seq<char>) -> bool {
    ||| xz_decoded(bytes) is None
    ||| (xz_decoded(bytes) is Some && exists|i: int|
        {
            &&& 0 <= i
            &&& !(#[trigger] tar_entry_readable(xz_decoded(bytes)->0, i))
            &&& match spec_first_tar_match(tar_entries_of(xz_decoded(bytes)->0), name) {
                Some(m) => i <= m,
                None => i <= tar_entries_of(xz_decoded(bytes)->0).len(),
            }
        })
}

/// `e` is a permissible failure of extracting `name` from the
/// xz-compressed tar archive `bytes`: the unreadable-archive error
/// exactly when the stream cannot be read as far as the extraction must
/// go, and the missing-executable error exactly when it can and no entry
/// matches.
pub open spec fn tar_extraction_err(bytes: Seq<u8>, name: Seq<char>, e: InstallError) -> bool {
    ||| (e == InstallError::ArchiveUnreadable && tar_read_fails(bytes, name))
    ||| (e == InstallError::ExecutableNotFound && xz_decoded(bytes) is Some
        && spec_first_tar_match(tar_entries_of(xz_decoded(bytes)->0), name) is None)
}

/// Extracts the contents of the first entry of the zip archive `bytes`
/// that is a regular file whose path's file name equals `binary_name`.
/// Fails with
/// [`InstallError::ExecutableNotFound`] exactly when the archive parses
/// and no entry matches, and with [`InstallError::ArchiveUnreadable`] when
/// the bytes are not a zip archive or an entry cannot be read.
pub fn extract_from_zip(bytes: &Vec<u8>, binary_name: &String) -> (r: Result<
    Vec<u8>,
    InstallError,
>)
    ensures
        match r {
            Ok(data) => zip_extraction_ok(bytes@, binary_name@, data@),
            Err(e) => zip_extraction_err(bytes@, binary_name@, e),
        },
{
    let n = match zip_entry_count(bytes) {
        Ok(n) => n,
        Err(e) => {
            return Err(e);
        },
    };
    let ghost entries = zip_entries_of(bytes@)->0;
    let name_chars = str_chars(binary_name.as_str());
    let mut i: usize = 0;
    while i < n
        invariant
            i <= n,
            n == entries.len(),
            zip_entries_of(bytes@) == Some(entries),
            name_chars@ == binary_name@,
            forall|k: int| 0 <= k < i ==> !zip_entry_matches(#[trigger] entries[k], binary_name@),
        decreases n - i,
    {
        let entry = match zip_entry(bytes, i) {
            Ok(entry) => entry,
            Err(e) => {
                proof {
                    lemma_zip_match_props(entries, binary_name@, 0);
                    assert(!zip_entry_readable(bytes@, i as int));
                    assert(zip_read_fails(bytes@, binary_name@));
                }
                return Err(e);
            },
        };
        let (entry_name, is_file, data) = entry;
        let entry_chars = str_chars(entry_name.as_str());
        let fname = file_name_of(&entry_chars);
        if is_file && chars_eq(&fname, &name_chars) {
            proof {
                assert(zip_entry_matches(entries[i as int], binary_name@));
                lemma_zip_match_props(entries, binary_name@, 0);
                assert(spec_first_zip_match(entries, binary_name@) == Some(i as int));
            }
            return Ok(data);
        }
        proof {
            assert(!zip_entry_matches(entries[i as int], binary_name@));
        }
        i = i + 1;
    }
    proof {
        lemma_zip_match_props(entries, binary_name@, 0);
    }
    Err(InstallError::ExecutableNotFound)
}

/// Extracts the contents of the first entry of the xz-compressed tar
/// archive `bytes` whose path's file name equals `binary_name`.  Fails
/// with [`InstallError::ExecutableNotFound`] exactly when the stream
/// decompresses and no entry matches, and with
/// [`InstallError::ArchiveUnreadable`] when the bytes are not an xz
/// stream, not a tar stream, or an entry cannot be read.
pub fn extract_from_tar_xz(bytes: &Vec<u8>, binary_name: &String) -> (r: Result<
    Vec<u8>,
    InstallError,
>)
    ensures
        match r {
            Ok(data) => tar_extraction_ok(bytes@, binary_name@, data@),
            Err(e) => tar_extraction_err(bytes@, binary_name@, e),
        },
{
    let decoded = match xz_decode(bytes) {
        Ok(d) => d,
        Err(e) => {
            return Err(e);
        },
    };
    let dlen: usize = decoded.len();
    let ghost entries = tar_entries_of(decoded@);
    let name_chars = str_chars(binary_name.as_str());
    let mut i: usize = 0;
    loop
        invariant
            i <= entries.len(),
            dlen == decoded@.len(),
            entries == tar_entries_of(decoded@),
            xz_decoded(bytes@) == Some(decoded@),
            name_chars@ == binary_name@,
            forall|k: int| 0 <= k < i ==> !tar_entry_matches(#[trigger] entries[k], binary_name@),
        decreases entries.len() - i,
    {
        let step = match tar_entry(&decoded, i) {
            Ok(step) => step,
            Err(e) => {
                proof {
                    lemma_tar_match_props(entries, binary_name@, 0);
                    assert(!tar_entry_readable(decoded@, i as int));
                    assert(tar_read_fails(bytes@, binary_name@));
                }
                return Err(e);
            },
        };
        match step {
            Some(entry) => {
                let (entry_name, _is_file, data) = entry;
                let entry_chars = str_chars(entry_name.as_str());
                let fname = file_name_of(&entry_chars);
                if chars_eq(&fname, &name_chars) {
                    proof {
                        assert(tar_entry_matches(entries[i as int], binary_name@));
                        lemma_tar_match_props(entries, binary_name@, 0);
                        assert(spec_first_tar_match(entries, binary_name@) == Some(i as int));
                    }
                    return Ok(data);
                }
                proof {
                    assert(!tar_entry_matches(entries[i as int], binary_name@));
                    assert(i < entries.len() && entries.len() <= dlen);
                }
                i = i + 1;
            },
            None => {
                proof {
                    lemma_tar_match_props(entries, binary_name@, 0);
                }
                return Err(InstallError::ExecutableNotFound);
            },
        }
    }
}

} // verus!
