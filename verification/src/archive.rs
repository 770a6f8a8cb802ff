//! Reader for the `.cgame` content archive.
//!
//! An archive is one byte blob: a 16-byte header (`CGME` magic, a 32-bit
//! version, a 64-bit table-of-contents offset), the file payloads, the table
//! of contents (an entry count followed by name/offset/size records), and a
//! trailing 16-byte scene locator (offset and size of the scene description).
//! Integers are little- or big-endian; a damaged header offset is recovered
//! by scanning for a plausible table of contents from the end of the file.
//!
//! The whole format is specified by the `spec_parse_*` functions below, and
//! every parser is proved to return exactly what they describe.

use vstd::prelude::*;
use vstd::utf8::{decode_utf8, valid_utf8};

use crate::endian::ArchiveEndian;
use crate::text::{str_eq, string_from_utf8};

verus! {

/// Why a blob of bytes was rejected as an archive, or an extraction failed.
#[derive(Debug, Clone, Copy, PartialEq, Eq, Structural)]
pub enum ArchiveError {
    /// Shorter than the 16-byte header.
    TooSmall,
    /// The first four bytes are not `CGME`.
    BadMagic,
    /// No strategy located a table of contents.
    TocNotFound,
    /// The header's table-of-contents offset points outside the file.
    TocOutOfBounds,
    /// A 32- or 64-bit field runs past the end of the file.
    Truncated,
    /// A file name runs past the table-of-contents region.
    NameOutOfBounds,
    /// A file name is not valid UTF-8.
    NameNotUtf8,
    /// An entry's payload lies outside the file.
    EntryOutOfBounds,
    /// The entry records do not end exactly at the scene locator.
    TocEndMismatch,
    /// The scene blob lies outside the file.
    SceneOutOfBounds,
    /// The scene blob is not valid UTF-8.
    SceneNotUtf8,
    /// No entry of the requested name exists.
    FileNotFound,
}

impl ArchiveError {
    /// A short description, for logs.
    pub fn message(&self) -> &'static str {
        match self {
            ArchiveError::TooSmall => "archive too small to contain header",
            ArchiveError::BadMagic => "invalid archive magic: expected CGME",
            ArchiveError::TocNotFound => "unable to locate archive table of contents",
            ArchiveError::TocOutOfBounds => "archive TOC offset is outside file bounds",
            ArchiveError::Truncated => "unexpected end of archive while reading value",
            ArchiveError::NameOutOfBounds => "archive file name extends past TOC region",
            ArchiveError::NameNotUtf8 => "invalid UTF-8 in file name",
            ArchiveError::EntryOutOfBounds => "file entry points outside archive bounds",
            ArchiveError::TocEndMismatch => "archive TOC parsing ended at unexpected position",
            ArchiveError::SceneOutOfBounds => "scene blob points outside archive bounds",
            ArchiveError::SceneNotUtf8 => "scene XML is not valid UTF-8",
            ArchiveError::FileNotFound => "file not found in archive",
        }
    }
}

/// Mathematical image of one table-of-contents entry.
pub struct SpecEntry {
    pub name: Seq<char>,
    pub offset: int,
    pub size: int,
}

/// File entry parsed from the archive table of contents.
#[derive(Debug)]
pub struct ArchiveFileEntry {
    pub name: String,
    pub offset: u64,
    pub size: u64,
}

impl Clone for ArchiveFileEntry {
    /// A clone is indistinguishable from the original.
    fn clone(&self) -> (r: Self)
        ensures
            r@ == self@,
    {
        ArchiveFileEntry { name: self.name.clone(), offset: self.offset, size: self.size }
    }
}

impl View for ArchiveFileEntry {
    type V = SpecEntry;

    open spec fn view(&self) -> SpecEntry {
        SpecEntry { name: self.name@, offset: self.offset as int, size: self.size as int }
    }
}

/// The views of a sequence of parsed entries.
pub open spec fn entries_view(s: Seq<ArchiveFileEntry>) -> Seq<SpecEntry> {
    s.map_values(|x: ArchiveFileEntry| x@)
}

/// A 32-bit read at `cursor`: the value and the new cursor, if in bounds.
pub open spec fn spec_read_u32(data: Seq<u8>, endian: ArchiveEndian, cursor: int) -> Option<
    (int, int),
> {
    if 0 <= cursor && cursor + 4 <= data.len() {
        Some((endian.spec_u32(data.subrange(cursor, cursor + 4)), cursor + 4))
    } else {
        None
    }
}

/// A 64-bit read at `cursor`: the value and the new cursor, if in bounds.
pub open spec fn spec_read_u64(data: Seq<u8>, endian: ArchiveEndian, cursor: int) -> Option<
    (int, int),
> {
    if 0 <= cursor && cursor + 8 <= data.len() {
        Some((endian.spec_u64(data.subrange(cursor, cursor + 8)), cursor + 8))
    } else {
        None
    }
}

/// One entry record at `cursor`: name length, name bytes, offset and size,
/// with every bound the parser enforces.
pub open spec fn spec_parse_entry(
    data: Seq<u8>,
    endian: ArchiveEndian,
    cursor: int,
    toc_end: int,
) -> Option<(SpecEntry, int)> {
    match spec_read_u32(data, endian, cursor) {
        Option::None => Option::None,
        Option::Some((name_len, c1)) => {
            if c1 + name_len > toc_end {
                Option::None
            } else {
                let name_bytes = data.subrange(c1, c1 + name_len);
                if !valid_utf8(name_bytes) {
                    Option::None
                } else {
                    match spec_read_u64(data, endian, c1 + name_len) {
                        Option::None => Option::None,
                        Option::Some((offset, c3)) => match spec_read_u64(data, endian, c3) {
                            Option::None => Option::None,
                            Option::Some((size, c4)) => {
                                if offset + size > data.len() {
                                    Option::None
                                } else {
                                    Option::Some(
                                        (
                                            SpecEntry {
                                                name: decode_utf8(name_bytes),
                                                offset,
                                                size,
                                            },
                                            c4,
                                        ),
                                    )
                                }
                            },
                        },
                    }
                }
            }
        },
    }
}

/// `k` consecutive entry records starting at `cursor`.
pub open spec fn spec_parse_entries(
    data: Seq<u8>,
    endian: ArchiveEndian,
    cursor: int,
    k: nat,
    toc_end: int,
) -> Option<(Seq<SpecEntry>, int)>
    decreases k,
{
    if k == 0 {
        Option::Some((Seq::empty(), cursor))
    } else {
        match spec_parse_entry(data, endian, cursor, toc_end) {
            Option::None => Option::None,
            Option::Some((entry, c2)) => {
                match spec_parse_entries(data, endian, c2, (k - 1) as nat, toc_end) {
                    Option::None => Option::None,
                    Option::Some((rest, end)) => Option::Some((seq![entry] + rest, end)),
                }
            },
        }
    }
}

/// The full table of contents at `toc_offset`: the entries, then the scene
/// locator in the final 16 bytes. `Some` exactly when every check passes.
pub open spec fn spec_parse_toc(data: Seq<u8>, endian: ArchiveEndian, toc_offset: int) -> Option<
    (Seq<SpecEntry>, int, int),
> {
    let len = data.len() as int;
    if toc_offset < 16 || toc_offset >= len {
        Option::None
    } else {
        let toc_end = len - 16;
        if toc_offset > toc_end {
            Option::None
        } else {
            match spec_read_u32(data, endian, toc_offset) {
                Option::None => Option::None,
                Option::Some((num_files, c1)) => {
                    match spec_parse_entries(data, endian, c1, num_files as nat, toc_end) {
                        Option::None => Option::None,
                        Option::Some((entries, cursor)) => {
                            if cursor != toc_end {
                                Option::None
                            } else {
                                let scene_offset = endian.spec_u64(
                                    data.subrange(toc_end, toc_end + 8),
                                );
                                let scene_size = endian.spec_u64(data.subrange(toc_end + 8, len));
                                if scene_offset + scene_size > len {
                                    Option::None
                                } else {
                                    Option::Some((entries, scene_offset, scene_size))
                                }
                            }
                        },
                    }
                },
            }
        }
    }
}

/// Reads a 32-bit value at `*cursor` and advances the cursor.
pub fn read_u32_from_slice(data: &Vec<u8>, cursor: &mut usize, endian: ArchiveEndian) -> (r:
    Result<u32, ArchiveError>)
    ensures
        r is Ok <==> spec_read_u32(data@, endian, *old(cursor) as int) is Some,
        r is Ok ==> ({
            let (value, c2) = spec_read_u32(data@, endian, *old(cursor) as int)->0;
            r->Ok_0 == value && *final(cursor) == c2
        }),
        r is Err ==> *final(cursor) == *old(cursor) && r->Err_0 == ArchiveError::Truncated,
{
    if data.len() < 4 || *cursor > data.len() - 4 {
        return Err(ArchiveError::Truncated);
    }
    let c = *cursor;
    let bytes = [data[c], data[c + 1], data[c + 2], data[c + 3]];
    proof {
        assert(bytes@ =~= data@.subrange(c as int, c as int + 4));
    }
    let value = endian.decode_u32(bytes);
    *cursor = c + 4;
    Ok(value)
}

/// Reads a 64-bit value at `*cursor` and advances the cursor.
pub fn read_u64_from_slice(data: &Vec<u8>, cursor: &mut usize, endian: ArchiveEndian) -> (r:
    Result<u64, ArchiveError>)
    ensures
        r is Ok <==> spec_read_u64(data@, endian, *old(cursor) as int) is Some,
        r is Ok ==> ({
            let (value, c2) = spec_read_u64(data@, endian, *old(cursor) as int)->0;
            r->Ok_0 == value && *final(cursor) == c2
        }),
        r is Err ==> *final(cursor) == *old(cursor) && r->Err_0 == ArchiveError::Truncated,
{
    if data.len() < 8 || *cursor > data.len() - 8 {
        return Err(ArchiveError::Truncated);
    }
    let c = *cursor;
    let bytes = [
        data[c],
        data[c + 1],
        data[c + 2],
        data[c + 3],
        data[c + 4],
        data[c + 5],
        data[c + 6],
        data[c + 7],
    ];
    proof {
        assert(bytes@ =~= data@.subrange(c as int, c as int + 8));
    }
    let value = endian.decode_u64(bytes);
    *cursor = c + 8;
    Ok(value)
}

/// Copies `data[start..end]` into a fresh vector.
fn bytes_range(data: &Vec<u8>, start: usize, end: usize) -> (r: Vec<u8>)
    requires
        start <= end <= data@.len(),
    ensures
        r@ == data@.subrange(start as int, end as int),
{
    let mut out: Vec<u8> = Vec::new();
    let mut i: usize = start;
    while i < end
        invariant
            start <= i <= end <= data@.len(),
            out@ =~= data@.subrange(start as int, i as int),
        decreases end - i,
    {
        out.push(data[i]);
        proof {
            assert(out@ =~= data@.subrange(start as int, i as int + 1));
        }
        i = i + 1;
    }
    proof {
        assert(out@ =~= data@.subrange(start as int, end as int));
    }
    out
}

/// Glues a prefix of already-parsed entries onto the outcome of parsing the
/// remaining records.
pub open spec fn extend_parse(front: Seq<SpecEntry>, tail: Option<(Seq<SpecEntry>, int)>) -> Option<
    (Seq<SpecEntry>, int),
> {
    match tail {
        Option::None => Option::None,
        Option::Some((rest, end)) => Option::Some((front + rest, end)),
    }
}

/// Parses the table of contents found at `toc_offset`, returning the entries
/// and the scene blob's offset and size.
#[verifier::loop_isolation(false)]
#[verifier::rlimit(60)]
pub fn parse_toc_block(data: &Vec<u8>, endian: ArchiveEndian, toc_offset: u64) -> (r: Result<
    (Vec<ArchiveFileEntry>, u64, u64),
    ArchiveError,
>)
    ensures
        r is Ok <==> spec_parse_toc(data@, endian, toc_offset as int) is Some,
        r is Ok ==> ({
            let (entries, so, ss) = spec_parse_toc(data@, endian, toc_offset as int)->0;
            &&& entries_view((r->Ok_0).0@) == entries
            &&& (r->Ok_0).1 == so
            &&& (r->Ok_0).2 == ss
        }),
{
    let len = data.len();
    if toc_offset < 16 || toc_offset >= len as u64 {
        return Err(ArchiveError::TocOutOfBounds);
    }
    let toc_start = toc_offset as usize;
    let toc_end = len - 16;
    if toc_start > toc_end {
        return Err(ArchiveError::TocOutOfBounds);
    }

    let mut cursor = toc_start;
    let num_files = match read_u32_from_slice(data, &mut cursor, endian) {
        Ok(v) => v,
        Err(e) => {
            return Err(e);
        },
    };
    let ghost entries_start = cursor as int;

    let mut files: Vec<ArchiveFileEntry> = Vec::new();
    let mut i: u32 = 0;
    while i < num_files
        invariant
            i <= num_files,
            cursor <= data@.len(),
            spec_parse_entries(data@, endian, entries_start, num_files as nat, toc_end as int)
                == extend_parse(
                entries_view(files@),
                spec_parse_entries(
                    data@,
                    endian,
                    cursor as int,
                    (num_files - i) as nat,
                    toc_end as int,
                ),
            ),
        decreases num_files - i,
    {
        let ghost k = (num_files - i) as nat;
        let ghost cursor0 = cursor as int;
        let ghost files0 = files@;

        let name_len = match read_u32_from_slice(data, &mut cursor, endian) {
            Ok(v) => v,
            Err(e) => {
                proof {
                    lemma_entries_none(data@, endian, cursor0, k, toc_end as int);
                }
                return Err(e);
            },
        };
        let name_end = match cursor.checked_add(name_len as usize) {
            Some(e) => e,
            None => {
                proof {
                    lemma_entries_none(data@, endian, cursor0, k, toc_end as int);
                }
                return Err(ArchiveError::NameOutOfBounds);
            },
        };
        if name_end > toc_end {
            proof {
                lemma_entries_none(data@, endian, cursor0, k, toc_end as int);
            }
            return Err(ArchiveError::NameOutOfBounds);
        }
        let name_bytes = bytes_range(data, cursor, name_end);
        let name = match string_from_utf8(name_bytes) {
            Some(s) => s,
            None => {
                proof {
                    lemma_entries_none(data@, endian, cursor0, k, toc_end as int);
                }
                return Err(ArchiveError::NameNotUtf8);
            },
        };
        cursor = name_end;

        let offset = match read_u64_from_slice(data, &mut cursor, endian) {
            Ok(v) => v,
            Err(e) => {
                proof {
                    lemma_entries_none(data@, endian, cursor0, k, toc_end as int);
                }
                return Err(e);
            },
        };
        let size = match read_u64_from_slice(data, &mut cursor, endian) {
            Ok(v) => v,
            Err(e) => {
                proof {
                    lemma_entries_none(data@, endian, cursor0, k, toc_end as int);
                }
                return Err(e);
            },
        };
        let payload_end = match offset.checked_add(size) {
            Some(e) => e,
            None => {
                proof {
                    lemma_entries_none(data@, endian, cursor0, k, toc_end as int);
                }
                return Err(ArchiveError::EntryOutOfBounds);
            },
        };
        if payload_end > len as u64 {
            proof {
                lemma_entries_none(data@, endian, cursor0, k, toc_end as int);
            }
            return Err(ArchiveError::EntryOutOfBounds);
        }

        let entry = ArchiveFileEntry { name, offset, size };
        proof {
            assert(spec_parse_entry(data@, endian, cursor0, toc_end as int) == Option::Some(
                (entry@, cursor as int),
            ));
        }
        files.push(entry);
        i = i + 1;
        proof {
            let tail = spec_parse_entries(data@, endian, cursor as int, (k - 1) as nat,
                toc_end as int);
            assert(spec_parse_entries(data@, endian, cursor0, k, toc_end as int) == extend_parse(
                seq![entry@],
                tail,
            ));
            assert(entries_view(files@) =~= entries_view(files0) + seq![entry@]);
            lemma_extend_assoc(entries_view(files0), seq![entry@], tail);
        }
    }

    proof {
        assert(spec_parse_entries(data@, endian, cursor as int, 0, toc_end as int)
            == Option::Some((Seq::<SpecEntry>::empty(), cursor as int)));
        assert(entries_view(files@) + Seq::<SpecEntry>::empty() =~= entries_view(files@));
    }

    if cursor != toc_end {
        return Err(ArchiveError::TocEndMismatch);
    }

    let mut tail_cursor = toc_end;
    let scene_offset = match read_u64_from_slice(data, &mut tail_cursor, endian) {
        Ok(v) => v,
        Err(_) => {
            return Err(ArchiveError::Truncated);
        },
    };
    let scene_size = match read_u64_from_slice(data, &mut tail_cursor, endian) {
        Ok(v) => v,
        Err(_) => {
            return Err(ArchiveError::Truncated);
        },
    };
    proof {
        assert(data@.subrange(toc_end as int + 8, toc_end as int + 16) =~= data@.subrange(
            toc_end as int + 8, data@.len() as int));
    }
    let scene_end = match scene_offset.checked_add(scene_size) {
        Some(e) => e,
        None => {
            return Err(ArchiveError::SceneOutOfBounds);
        },
    };
    if scene_end > len as u64 {
        return Err(ArchiveError::SceneOutOfBounds);
    }
    Ok((files, scene_offset, scene_size))
}

/// Whether `c` is a spot the scanner accepts: room for a count before the
/// scene locator, a plausible entry count, and a table that parses.
pub open spec fn spec_candidate_ok(data: Seq<u8>, endian: ArchiveEndian, c: int) -> bool {
    let toc_end = data.len() - 16;
    &&& c + 4 <= toc_end
    &&& (spec_read_u32(data, endian, c)->0).0 <= 1_000_000
    &&& spec_parse_toc(data, endian, c) is Some
}

/// A candidate that parses to at least one entry.
pub open spec fn spec_candidate_nonempty(data: Seq<u8>, endian: ArchiveEndian, c: int) -> bool {
    spec_candidate_ok(data, endian, c) && (spec_parse_toc(data, endian, c)->0).0.len() > 0
}

/// A candidate that parses to an empty entry list.
pub open spec fn spec_candidate_empty(data: Seq<u8>, endian: ArchiveEndian, c: int) -> bool {
    spec_candidate_ok(data, endian, c) && (spec_parse_toc(data, endian, c)->0).0.len() == 0
}

/// Highest candidate at or below `c` whose table parses with entries.
pub open spec fn spec_scan_nonempty(data: Seq<u8>, endian: ArchiveEndian, c: int) -> Option<int>
    decreases c,
{
    if c < 16 {
        Option::None
    } else if spec_candidate_nonempty(data, endian, c) {
        Option::Some(c)
    } else {
        spec_scan_nonempty(data, endian, c - 1)
    }
}

/// Highest candidate at or below `c` whose table parses without entries.
pub open spec fn spec_scan_empty(data: Seq<u8>, endian: ArchiveEndian, c: int) -> Option<int>
    decreases c,
{
    if c < 16 {
        Option::None
    } else if spec_candidate_empty(data, endian, c) {
        Option::Some(c)
    } else {
        spec_scan_empty(data, endian, c - 1)
    }
}

/// Where scanning lands for one byte order: a non-empty table if any exists,
/// else the highest empty one.
pub open spec fn spec_scan(data: Seq<u8>, endian: ArchiveEndian) -> Option<int> {
    if data.len() < 32 {
        Option::None
    } else {
        let toc_end = data.len() - 16;
        match spec_scan_nonempty(data, endian, toc_end) {
            Option::Some(c) => Option::Some(c),
            Option::None => spec_scan_empty(data, endian, toc_end),
        }
    }
}

/// Recovers the table of contents by scanning backwards from the scene
/// locator, used when the header's offset is damaged.
#[verifier::loop_isolation(false)]
#[verifier::rlimit(100)]
pub fn locate_toc_by_scanning(data: &Vec<u8>, endian: ArchiveEndian) -> (r: Result<
    (u64, Vec<ArchiveFileEntry>, u64, u64),
    ArchiveError,
>)
    ensures
        r is Ok <==> spec_scan(data@, endian) is Some,
        r is Ok ==> ({
            let c = spec_scan(data@, endian)->0;
            let (entries, so, ss) = spec_parse_toc(data@, endian, c)->0;
            &&& spec_parse_toc(data@, endian, c) is Some
            &&& (r->Ok_0).0 == c
            &&& entries_view((r->Ok_0).1@) == entries
            &&& (r->Ok_0).2 == so
            &&& (r->Ok_0).3 == ss
        }),
{
    let len = data.len();
    if len < 32 {
        return Err(ArchiveError::TooSmall);
    }
    let toc_end = len - 16;

    let mut empty_result: Option<(u64, Vec<ArchiveFileEntry>, u64, u64)> = None;
    let mut candidate = toc_end;
    while candidate >= 16
        invariant
            candidate <= toc_end,
            spec_scan_nonempty(data@, endian, toc_end as int) == spec_scan_nonempty(
                data@,
                endian,
                candidate as int,
            ),
            match empty_result {
                Option::None => spec_scan_empty(data@, endian, toc_end as int) == spec_scan_empty(
                    data@,
                    endian,
                    candidate as int,
                ),
                Option::Some(stored) => {
                    let c = stored.0 as int;
                    &&& spec_scan_empty(data@, endian, toc_end as int) == Option::Some(c)
                    &&& spec_parse_toc(data@, endian, c) is Some
                    &&& entries_view(stored.1@) == (spec_parse_toc(data@, endian, c)->0).0
                    &&& stored.2 == (spec_parse_toc(data@, endian, c)->0).1
                    &&& stored.3 == (spec_parse_toc(data@, endian, c)->0).2
                },
            },
        decreases candidate,
    {
        if candidate + 4 <= toc_end {
            let mut peek = candidate;
            let num_files = match read_u32_from_slice(data, &mut peek, endian) {
                Ok(v) => v,
                Err(_) => {
                    // A candidate at least four bytes before the scene
                    // locator always has room for its count.
                    proof {
                        assert(false);
                    }
                    0
                },
            };
            if num_files <= 1_000_000 {
                match parse_toc_block(data, endian, candidate as u64) {
                    Ok((files, scene_offset, scene_size)) => {
                        if files.len() > 0 {
                            return Ok((candidate as u64, files, scene_offset, scene_size));
                        }
                        if empty_result.is_none() {
                            empty_result = Some((candidate as u64, files, scene_offset, scene_size));
                        }
                    },
                    Err(_) => {},
                }
            }
        }
        candidate = candidate - 1;
    }

    match empty_result {
        Some(result) => Ok(result),
        None => Err(ArchiveError::TocNotFound),
    }
}

/// A table that parses keeps its scene blob inside the file.
proof fn lemma_toc_scene_bounds(data: Seq<u8>, endian: ArchiveEndian, toc: int)
    requires
        spec_parse_toc(data, endian, toc) is Some,
    ensures
        0 <= (spec_parse_toc(data, endian, toc)->0).1,
        (spec_parse_toc(data, endian, toc)->0).1 + (spec_parse_toc(data, endian, toc)->0).2
            <= data.len(),
{
    let toc_end = data.len() - 16;
    lemma_u64_nonneg(data.subrange(toc_end, toc_end + 8), endian);
    lemma_u64_nonneg(data.subrange(toc_end + 8, data.len() as int), endian);
}

/// Decoded 64-bit values are never negative.
proof fn lemma_u64_nonneg(b: Seq<u8>, endian: ArchiveEndian)
    requires
        b.len() == 8,
    ensures
        endian.spec_u64(b) >= 0,
{
}

/// The bytes of the scene blob that the table at `toc_offset` points to.
pub open spec fn spec_scene_bytes(data: Seq<u8>, endian: ArchiveEndian, toc_offset: int) -> Seq<
    u8,
> {
    let (entries, so, ss) = spec_parse_toc(data, endian, toc_offset)->0;
    data.subrange(so, so + ss)
}

/// Whether the header's own table-of-contents offset works for `endian`:
/// it lies between the header and the scene locator and its table parses.
pub open spec fn spec_direct_ok(data: Seq<u8>, toc_bytes: Seq<u8>, endian: ArchiveEndian) -> bool {
    let toc = endian.spec_u64(toc_bytes);
    &&& 16 <= toc
    &&& toc + 16 <= data.len()
    &&& spec_parse_toc(data, endian, toc) is Some
}

/// Which byte order and table position the four strategies settle on:
/// the header offset read little- then big-endian, then a scan in each order.
pub open spec fn spec_locate(data: Seq<u8>, toc_bytes: Seq<u8>) -> Option<(ArchiveEndian, int)> {
    if spec_direct_ok(data, toc_bytes, ArchiveEndian::Little) {
        Option::Some((ArchiveEndian::Little, ArchiveEndian::Little.spec_u64(toc_bytes)))
    } else if spec_direct_ok(data, toc_bytes, ArchiveEndian::Big) {
        Option::Some((ArchiveEndian::Big, ArchiveEndian::Big.spec_u64(toc_bytes)))
    } else if spec_scan(data, ArchiveEndian::Little) is Some {
        Option::Some((ArchiveEndian::Little, spec_scan(data, ArchiveEndian::Little)->0))
    } else if spec_scan(data, ArchiveEndian::Big) is Some {
        Option::Some((ArchiveEndian::Big, spec_scan(data, ArchiveEndian::Big)->0))
    } else {
        Option::None
    }
}

/// Copies the scene blob out and decodes it as UTF-8.
pub fn extract_scene(data: &Vec<u8>, scene_offset: u64, scene_size: u64) -> (r: Result<
    String,
    ArchiveError,
>)
    ensures
        r is Ok <==> (scene_offset + scene_size <= data@.len() && valid_utf8(
            data@.subrange(scene_offset as int, scene_offset + scene_size),
        )),
        r is Ok ==> r->Ok_0@ == decode_utf8(
            data@.subrange(scene_offset as int, scene_offset + scene_size),
        ),
{
    let len_u64 = data.len() as u64;
    if scene_offset > len_u64 || scene_size > len_u64 - scene_offset {
        return Err(ArchiveError::SceneOutOfBounds);
    }
    let start = scene_offset as usize;
    let stop = (scene_offset + scene_size) as usize;
    let bytes = bytes_range(data, start, stop);
    match string_from_utf8(bytes) {
        Some(s) => Ok(s),
        None => Err(ArchiveError::SceneNotUtf8),
    }
}

/// Tries the header's table offset in both byte orders, then falls back to
/// scanning; returns the byte order, version, table offset, entries and the
/// decoded scene text.
#[verifier::rlimit(100)]
pub fn parse_archive_bytes(data: &Vec<u8>, version_bytes: [u8; 4], toc_bytes: [u8; 8]) -> (r:
    Result<(ArchiveEndian, u32, u64, Vec<ArchiveFileEntry>, String), ArchiveError>)
    ensures
        r is Ok <==> (spec_locate(data@, toc_bytes@) is Some && valid_utf8(
            spec_scene_bytes(data@, (spec_locate(data@, toc_bytes@)->0).0, (spec_locate(
                data@,
                toc_bytes@,
            )->0).1),
        )),
        r is Ok ==> ({
            let (endian, toc) = spec_locate(data@, toc_bytes@)->0;
            &&& (r->Ok_0).0 == endian
            &&& (r->Ok_0).1 == endian.spec_u32(version_bytes@)
            &&& (r->Ok_0).2 == toc
            &&& entries_view((r->Ok_0).3@) == (spec_parse_toc(data@, endian, toc)->0).0
            &&& (r->Ok_0).4@ == decode_utf8(spec_scene_bytes(data@, endian, toc))
        }),
{
    let len = data.len();
    let mut last_error = ArchiveError::TocNotFound;

    let toc_le = ArchiveEndian::Little.decode_u64(toc_bytes);
    if 16 <= toc_le && toc_le <= (len as u64).saturating_sub(16) {
        match parse_toc_block(data, ArchiveEndian::Little, toc_le) {
            Ok((files, scene_offset, scene_size)) => {
                proof {
                    assert(spec_direct_ok(data@, toc_bytes@, ArchiveEndian::Little));
                }
                let version = ArchiveEndian::Little.decode_u32(version_bytes);
                let scene_xml = match extract_scene(data, scene_offset, scene_size) {
                    Ok(s) => s,
                    Err(e) => {
                        proof {
                            assert(!valid_utf8(
                                spec_scene_bytes(data@, ArchiveEndian::Little, toc_le as int)));
                        }
                        return Err(e);
                    },
                };
                return Ok((ArchiveEndian::Little, version, toc_le, files, scene_xml));
            },
            Err(e) => {
                last_error = e;
            },
        }
    }
    proof {
        assert(!spec_direct_ok(data@, toc_bytes@, ArchiveEndian::Little));
    }

    let toc_be = ArchiveEndian::Big.decode_u64(toc_bytes);
    if 16 <= toc_be && toc_be <= (len as u64).saturating_sub(16) {
        match parse_toc_block(data, ArchiveEndian::Big, toc_be) {
            Ok((files, scene_offset, scene_size)) => {
                proof {
                    assert(spec_direct_ok(data@, toc_bytes@, ArchiveEndian::Big));
                }
                let version = ArchiveEndian::Big.decode_u32(version_bytes);
                let scene_xml = match extract_scene(data, scene_offset, scene_size) {
                    Ok(s) => s,
                    Err(e) => {
                        proof {
                            assert(!valid_utf8(
                                spec_scene_bytes(data@, ArchiveEndian::Big, toc_be as int)));
                        }
                        return Err(e);
                    },
                };
                return Ok((ArchiveEndian::Big, version, toc_be, files, scene_xml));
            },
            Err(e) => {
                last_error = e;
            },
        }
    }
    proof {
        assert(!spec_direct_ok(data@, toc_bytes@, ArchiveEndian::Big));
    }

    match locate_toc_by_scanning(data, ArchiveEndian::Little) {
        Ok((toc_offset, files, scene_offset, scene_size)) => {
            let version = ArchiveEndian::Little.decode_u32(version_bytes);
            let scene_xml = match extract_scene(data, scene_offset, scene_size) {
                Ok(s) => s,
                Err(e) => {
                    proof {
                        lemma_toc_scene_bounds(data@, ArchiveEndian::Little, toc_offset as int);
                        assert(!valid_utf8(
                            spec_scene_bytes(data@, ArchiveEndian::Little, toc_offset as int)));
                    }
                    return Err(e);
                },
            };
            return Ok((ArchiveEndian::Little, version, toc_offset, files, scene_xml));
        },
        Err(e) => {
            last_error = e;
        },
    }
    proof {
        assert(spec_scan(data@, ArchiveEndian::Little) is None);
    }

    match locate_toc_by_scanning(data, ArchiveEndian::Big) {
        Ok((toc_offset, files, scene_offset, scene_size)) => {
            let version = ArchiveEndian::Big.decode_u32(version_bytes);
            let scene_xml = match extract_scene(data, scene_offset, scene_size) {
                Ok(s) => s,
                Err(e) => {
                    proof {
                        lemma_toc_scene_bounds(data@, ArchiveEndian::Big, toc_offset as int);
                        assert(!valid_utf8(
                            spec_scene_bytes(data@, ArchiveEndian::Big, toc_offset as int)));
                    }
                    return Err(e);
                },
            };
            return Ok((ArchiveEndian::Big, version, toc_offset, files, scene_xml));
        },
        Err(e) => {
            last_error = e;
        },
    }

    Err(last_error)
}

/// Whether the blob begins with the `CGME` magic bytes.
pub open spec fn spec_magic_ok(data: Seq<u8>) -> bool {
    data.len() >= 4 && data[0] == 0x43u8 && data[1] == 0x47u8 && data[2] == 0x4du8 && data[3]
        == 0x45u8
}

/// The header's version field.
pub open spec fn spec_version_bytes(data: Seq<u8>) -> Seq<u8> {
    data.subrange(4, 8)
}

/// The header's table-of-contents offset field.
pub open spec fn spec_toc_bytes(data: Seq<u8>) -> Seq<u8> {
    data.subrange(8, 16)
}

/// Whether a blob of bytes is a readable archive: big enough, right magic,
/// a locatable table of contents, and a UTF-8 scene blob.
pub open spec fn spec_archive_ok(data: Seq<u8>) -> bool {
    &&& data.len() >= 16
    &&& spec_magic_ok(data)
    &&& spec_locate(data, spec_toc_bytes(data)) is Some
    &&& valid_utf8(
        spec_scene_bytes(data, (spec_locate(data, spec_toc_bytes(data))->0).0, (spec_locate(
            data,
            spec_toc_bytes(data),
        )->0).1),
    )
}

/// Checks the header and parses everything after it.
pub fn parse_archive_metadata(data: &Vec<u8>) -> (r: Result<
    (u32, Vec<ArchiveFileEntry>, String),
    ArchiveError,
>)
    ensures
        r is Ok <==> spec_archive_ok(data@),
        r is Ok ==> ({
            let (endian, toc) = spec_locate(data@, spec_toc_bytes(data@))->0;
            &&& (r->Ok_0).0 == endian.spec_u32(spec_version_bytes(data@))
            &&& entries_view((r->Ok_0).1@) == (spec_parse_toc(data@, endian, toc)->0).0
            &&& (r->Ok_0).2@ == decode_utf8(spec_scene_bytes(data@, endian, toc))
        }),
{
    if data.len() < 16 {
        return Err(ArchiveError::TooSmall);
    }
    if !(data[0] == 0x43 && data[1] == 0x47 && data[2] == 0x4d && data[3] == 0x45) {
        return Err(ArchiveError::BadMagic);
    }
    let version_bytes = [data[4], data[5], data[6], data[7]];
    let toc_bytes = [
        data[8],
        data[9],
        data[10],
        data[11],
        data[12],
        data[13],
        data[14],
        data[15],
    ];
    proof {
        assert(version_bytes@ =~= spec_version_bytes(data@));
        assert(toc_bytes@ =~= spec_toc_bytes(data@));
    }
    match parse_archive_bytes(data, version_bytes, toc_bytes) {
        Ok((_endian, version, _toc_offset, files, scene_xml)) => Ok((version, files, scene_xml)),
        Err(e) => Err(e),
    }
}

/// A parse of more than zero entries fails whenever its first record fails.
proof fn lemma_entries_none(data: Seq<u8>, endian: ArchiveEndian, cursor: int, k: nat, toc_end: int)
    requires
        k > 0,
        spec_parse_entry(data, endian, cursor, toc_end) is None,
    ensures
        spec_parse_entries(data, endian, cursor, k, toc_end) is None,
{
}

/// Prepending entry sequences one at a time or together is the same.
proof fn lemma_extend_assoc(a: Seq<SpecEntry>, b: Seq<SpecEntry>, tail: Option<
    (Seq<SpecEntry>, int),
>)
    ensures
        extend_parse(a, extend_parse(b, tail)) == extend_parse(a + b, tail),
{
    match tail {
        Option::None => {},
        Option::Some((rest, end)) => {
            assert(a + (b + rest) =~= (a + b) + rest);
        },
    }
}

/// First position of an entry named `name`, if any.
pub open spec fn spec_find_entry(entries: Seq<SpecEntry>, name: Seq<char>) -> Option<int>
    decreases entries.len(),
{
    if entries.len() == 0 {
        Option::None
    } else if entries[0].name == name {
        Option::Some(0)
    } else {
        match spec_find_entry(entries.drop_first(), name) {
            Option::None => Option::None,
            Option::Some(i) => Option::Some(i + 1),
        }
    }
}

/// What the found position means: in range, the right name, and no earlier
/// entry of that name.
pub broadcast proof fn lemma_find_entry(entries: Seq<SpecEntry>, name: Seq<char>)
    ensures
        match #[trigger] spec_find_entry(entries, name) {
            Option::None => forall|i: int|
                0 <= i < entries.len() ==> (#[trigger] entries[i]).name != name,
            Option::Some(i) => {
                &&& 0 <= i < entries.len()
                &&& entries[i].name == name
                &&& forall|j: int| 0 <= j < i ==> (#[trigger] entries[j]).name != name
            },
        },
    decreases entries.len(),
{
    if entries.len() == 0 {
    } else if entries[0].name == name {
    } else {
        let rest = entries.drop_first();
        lemma_find_entry(rest, name);
        assert(forall|j: int| 0 <= j < rest.len() ==> #[trigger] rest[j] == entries[j + 1]);
        match spec_find_entry(rest, name) {
            Option::None => {
                assert forall|i: int| 0 <= i < entries.len() implies (#[trigger] entries[i]).name
                    != name by {
                    if i > 0 {
                        assert(entries[i] == rest[i - 1]);
                    }
                }
            },
            Option::Some(i) => {
                assert(spec_find_entry(entries, name) == Option::Some(i + 1));
                assert forall|j: int| 0 <= j < i + 1 implies (#[trigger] entries[j]).name
                    != name by {
                    if j > 0 {
                        assert(entries[j] == rest[j - 1]);
                    }
                }
            },
        }
    }
}

/// A successful scan names a candidate whose table parses.
proof fn lemma_scan_nonempty_ok(data: Seq<u8>, endian: ArchiveEndian, c: int)
    requires
        spec_scan_nonempty(data, endian, c) is Some,
    ensures
        spec_candidate_nonempty(data, endian, spec_scan_nonempty(data, endian, c)->0),
    decreases c,
{
    if c >= 16 && !spec_candidate_nonempty(data, endian, c) {
        lemma_scan_nonempty_ok(data, endian, c - 1);
    }
}

/// A successful empty-table scan names a candidate whose table parses.
proof fn lemma_scan_empty_ok(data: Seq<u8>, endian: ArchiveEndian, c: int)
    requires
        spec_scan_empty(data, endian, c) is Some,
    ensures
        spec_candidate_empty(data, endian, spec_scan_empty(data, endian, c)->0),
    decreases c,
{
    if c >= 16 && !spec_candidate_empty(data, endian, c) {
        lemma_scan_empty_ok(data, endian, c - 1);
    }
}

/// Wherever a scan settles, the table there parses.
proof fn lemma_scan_result_ok(data: Seq<u8>, endian: ArchiveEndian)
    requires
        spec_scan(data, endian) is Some,
    ensures
        spec_parse_toc(data, endian, spec_scan(data, endian)->0) is Some,
{
    let toc_end = data.len() - 16;
    if spec_scan_nonempty(data, endian, toc_end) is Some {
        lemma_scan_nonempty_ok(data, endian, toc_end);
    } else {
        lemma_scan_empty_ok(data, endian, toc_end);
    }
}

/// Wherever the strategies settle, the table there parses.
#[verifier::rlimit(50)]
proof fn lemma_locate_ok(data: Seq<u8>, toc_bytes: Seq<u8>)
    requires
        spec_locate(data, toc_bytes) is Some,
    ensures
        spec_parse_toc(
            data,
            (spec_locate(data, toc_bytes)->0).0,
            (spec_locate(data, toc_bytes)->0).1,
        ) is Some,
{
    if !spec_direct_ok(data, toc_bytes, ArchiveEndian::Little) && !spec_direct_ok(
        data,
        toc_bytes,
        ArchiveEndian::Big,
    ) {
        if spec_scan(data, ArchiveEndian::Little) is Some {
            lemma_scan_result_ok(data, ArchiveEndian::Little);
        } else {
            lemma_scan_result_ok(data, ArchiveEndian::Big);
        }
    }
}

/// In-memory representation of a `.cgame` archive.
#[derive(Debug, Clone)]
pub struct CGameArchive {
    label: String,
    data: Vec<u8>,
    version: u32,
    files: Vec<ArchiveFileEntry>,
    scene_xml: String,
}

impl CGameArchive {
    /// The raw bytes the archive was built from.
    pub closed spec fn spec_data(&self) -> Seq<u8> {
        self.data@
    }

    /// The views of the parsed entries.
    pub closed spec fn spec_files(&self) -> Seq<SpecEntry> {
        entries_view(self.files@)
    }

    /// The version stored in the header.
    pub closed spec fn spec_version(&self) -> int {
        self.version as int
    }

    /// The decoded scene text.
    pub closed spec fn spec_scene(&self) -> Seq<char> {
        self.scene_xml@
    }

    /// Every entry's payload lies inside the archive bytes.
    pub closed spec fn wf(&self) -> bool {
        forall|i: int|
            0 <= i < self.spec_files().len() ==> (#[trigger] self.spec_files()[i]).offset
                + self.spec_files()[i].size <= self.spec_data().len()
    }

    /// Creates an archive from bytes already resident in memory.
    pub fn from_bytes(label: String, data: Vec<u8>) -> (r: Result<Self, ArchiveError>)
        ensures
            r is Ok <==> spec_archive_ok(data@),
            r is Ok ==> ({
                let (endian, toc) = spec_locate(data@, spec_toc_bytes(data@))->0;
                let archive = r->Ok_0;
                &&& archive.wf()
                &&& archive.spec_data() == data@
                &&& archive.spec_version() == endian.spec_u32(spec_version_bytes(data@))
                &&& archive.spec_files() == (spec_parse_toc(data@, endian, toc)->0).0
                &&& archive.spec_scene() == decode_utf8(spec_scene_bytes(data@, endian, toc))
            }),
    {
        let (version, files, scene_xml) = match parse_archive_metadata(&data) {
            Ok(parts) => parts,
            Err(e) => {
                return Err(e);
            },
        };
        proof {
            let (endian, toc) = spec_locate(data@, spec_toc_bytes(data@))->0;
            lemma_locate_ok(data@, spec_toc_bytes(data@));
            lemma_parsed_entries_bounded(data@, endian, toc);
        }
        Ok(CGameArchive { label, data, version, files, scene_xml })
    }

    /// Returns the engine version stored in the archive header.
    pub fn version(&self) -> (r: u32)
        ensures
            r == self.spec_version(),
    {
        self.version
    }

    /// Returns the raw scene XML contained in the archive.
    pub fn scene_xml(&self) -> (r: &str)
        ensures
            r@ == self.spec_scene(),
    {
        self.scene_xml.as_str()
    }

    /// Returns the list of files bundled alongside the scene.
    pub fn files(&self) -> (r: &Vec<ArchiveFileEntry>)
        ensures
            entries_view(r@) == self.spec_files(),
    {
        &self.files
    }

    /// Looks up a file entry by name.
    pub fn file(&self, name: &str) -> (r: Option<&ArchiveFileEntry>)
        ensures
            r is Some <==> spec_find_entry(self.spec_files(), name@) is Some,
            r is Some ==> r->0@ == self.spec_files()[spec_find_entry(self.spec_files(), name@)->0],
    {
        proof {
            lemma_find_entry(self.spec_files(), name@);
        }
        let n = self.files.len();
        let mut i: usize = 0;
        while i < n
            invariant
                i <= n,
                n == self.files@.len(),
                forall|j: int| 0 <= j < i ==> (#[trigger] self.spec_files()[j]).name != name@,
            decreases n - i,
        {
            let entry = &self.files[i];
            if str_eq(entry.name.as_str(), name) {
                proof {
                    lemma_find_first(self.spec_files(), name@, i as int);
                }
                return Some(entry);
            }
            i = i + 1;
        }
        proof {
            lemma_find_entry(self.spec_files(), name@);
        }
        None
    }

    /// Extracts the raw bytes for the provided entry name.
    pub fn extract_file(&self, name: &str) -> (r: Result<Vec<u8>, ArchiveError>)
        requires
            self.wf(),
        ensures
            r is Ok <==> spec_find_entry(self.spec_files(), name@) is Some,
            r is Ok ==> ({
                let entry = self.spec_files()[spec_find_entry(self.spec_files(), name@)->0];
                r->Ok_0@ == self.spec_data().subrange(entry.offset, entry.offset + entry.size)
            }),
            r is Err ==> r->Err_0 == ArchiveError::FileNotFound,
    {
        proof {
            lemma_find_entry(self.spec_files(), name@);
        }
        let entry = match self.file(name) {
            Some(e) => e,
            None => {
                return Err(ArchiveError::FileNotFound);
            },
        };
        self.extract_entry(entry)
    }

    /// Extracts the raw bytes for a previously looked-up entry.
    pub fn extract_entry(&self, entry: &ArchiveFileEntry) -> (r: Result<Vec<u8>, ArchiveError>)
        ensures
            r is Ok <==> entry.offset + entry.size <= self.spec_data().len(),
            r is Ok ==> r->Ok_0@ == self.spec_data().subrange(
                entry.offset as int,
                entry.offset + entry.size,
            ),
            r is Err ==> r->Err_0 == ArchiveError::EntryOutOfBounds,
    {
        let len_u64 = self.data.len() as u64;
        if entry.offset > len_u64 || entry.size > len_u64 - entry.offset {
            return Err(ArchiveError::EntryOutOfBounds);
        }
        let start = entry.offset as usize;
        let stop = (entry.offset + entry.size) as usize;
        Ok(bytes_range(&self.data, start, stop))
    }
}

/// A found name at position `i` with no earlier match is what the search
/// function returns.
proof fn lemma_find_first(entries: Seq<SpecEntry>, name: Seq<char>, i: int)
    requires
        0 <= i < entries.len(),
        entries[i].name == name,
        forall|j: int| 0 <= j < i ==> (#[trigger] entries[j]).name != name,
    ensures
        spec_find_entry(entries, name) == Option::Some(i),
    decreases i,
{
    if i == 0 {
    } else {
        assert(entries[0].name != name);
        lemma_find_first(entries.drop_first(), name, i - 1);
        assert(forall|j: int|
            0 <= j < i - 1 ==> (#[trigger] entries.drop_first()[j]).name == entries[j + 1].name);
    }
}

/// Entries of a table that parsed all lie inside the file.
proof fn lemma_parsed_entries_bounded(data: Seq<u8>, endian: ArchiveEndian, toc: int)
    requires
        spec_parse_toc(data, endian, toc) is Some,
    ensures
        forall|i: int|
            0 <= i < (spec_parse_toc(data, endian, toc)->0).0.len() ==> (#[trigger] (spec_parse_toc(
                data,
                endian,
                toc,
            )->0).0[i]).offset + (spec_parse_toc(data, endian, toc)->0).0[i].size <= data.len(),
{
    let len = data.len() as int;
    let toc_end = len - 16;
    let num_files = (spec_read_u32(data, endian, toc)->0).0;
    lemma_entries_bounded(data, endian, toc + 4, num_files as nat, toc_end);
}

/// Every entry produced by an entry-list parse respects the file bounds.
proof fn lemma_entries_bounded(data: Seq<u8>, endian: ArchiveEndian, cursor: int, k: nat, toc_end: int)
    requires
        spec_parse_entries(data, endian, cursor, k, toc_end) is Some,
    ensures
        forall|i: int|
            0 <= i < (spec_parse_entries(data, endian, cursor, k, toc_end)->0).0.len() ==> (
            #[trigger] (spec_parse_entries(data, endian, cursor, k, toc_end)->0).0[i]).offset + (
            spec_parse_entries(data, endian, cursor, k, toc_end)->0).0[i].size <= data.len(),
    decreases k,
{
    if k > 0 {
        let (entry, c2) = spec_parse_entry(data, endian, cursor, toc_end)->0;
        lemma_entries_bounded(data, endian, c2, (k - 1) as nat, toc_end);
        let whole = (spec_parse_entries(data, endian, cursor, k, toc_end)->0).0;
        let rest = (spec_parse_entries(data, endian, c2, (k - 1) as nat, toc_end)->0).0;
        assert(forall|i: int| 1 <= i < whole.len() ==> whole[i] == rest[i - 1]);
    }
}

} // verus!
