use vstd::prelude::*;
use vstd::string::StrSliceExecFns;

use crate::error::{ArchiveError, ErrorModel, result_model};
use crate::outside::{lower_of, lowercase};
use crate::text::{concat2, chars_of, ends_with, has_suffix, lemma_ends_with_appended};

verus! {

/// Every archive format that the library can recognise.
#[derive(Debug, Clone, Copy, PartialEq, Eq, Structural)]
pub enum ArchiveFormat {
    /// ZIP archive (.zip)
    Zip,
    /// TAR archive compressed with GZIP (.tar.gz, .tgz)
    TarGz,
    /// TAR archive compressed with XZ (.tar.xz, .txz)
    TarXz,
    /// TAR archive compressed with BZIP2 (.tar.bz2, .tbz2)
    TarBz2,
    /// TAR archive compressed with Zstandard (.tar.zst)
    TarZst,
    /// Plain TAR archive (.tar)
    Tar,
    /// 7-Zip archive (.7z)
    SevenZ,
    /// RAR archive (.rar): recognised, but no extraction pipeline exists for it
    Rar,
}

/// The canonical file extension of a format, without the leading dot.
pub open spec fn extension_of(f: ArchiveFormat) -> Seq<char> {
    match f {
        ArchiveFormat::Zip => "zip"@,
        ArchiveFormat::TarGz => "tar.gz"@,
        ArchiveFormat::TarXz => "tar.xz"@,
        ArchiveFormat::TarBz2 => "tar.bz2"@,
        ArchiveFormat::TarZst => "tar.zst"@,
        ArchiveFormat::Tar => "tar"@,
        ArchiveFormat::SevenZ => "7z"@,
        ArchiveFormat::Rar => "rar"@,
    }
}

/// The name under which a format is shown to a person.
pub open spec fn name_of(f: ArchiveFormat) -> Seq<char> {
    match f {
        ArchiveFormat::Zip => "ZIP"@,
        ArchiveFormat::TarGz => "TAR.GZ"@,
        ArchiveFormat::TarXz => "TAR.XZ"@,
        ArchiveFormat::TarBz2 => "TAR.BZ2"@,
        ArchiveFormat::TarZst => "TAR.ZST"@,
        ArchiveFormat::Tar => "TAR"@,
        ArchiveFormat::SevenZ => "7Z"@,
        ArchiveFormat::Rar => "RAR"@,
    }
}

/// The MIME type of a format.
pub open spec fn mime_of(f: ArchiveFormat) -> Seq<char> {
    match f {
        ArchiveFormat::Zip => "application/zip"@,
        ArchiveFormat::TarGz => "application/gzip"@,
        ArchiveFormat::TarXz => "application/x-xz"@,
        ArchiveFormat::TarBz2 => "application/x-bzip2"@,
        ArchiveFormat::TarZst => "application/zstd"@,
        ArchiveFormat::Tar => "application/x-tar"@,
        ArchiveFormat::SevenZ => "application/x-7z-compressed"@,
        ArchiveFormat::Rar => "application/vnd.rar"@,
    }
}

impl ArchiveFormat {
    /// The MIME type of this format; every format has one.
    pub fn mime_type(&self) -> (r: &'static str)
        ensures
            r@ == mime_of(*self),
    {
        match self {
            ArchiveFormat::Zip => "application/zip",
            ArchiveFormat::TarGz => "application/gzip",
            ArchiveFormat::TarXz => "application/x-xz",
            ArchiveFormat::TarBz2 => "application/x-bzip2",
            ArchiveFormat::TarZst => "application/zstd",
            ArchiveFormat::Tar => "application/x-tar",
            ArchiveFormat::SevenZ => "application/x-7z-compressed",
            ArchiveFormat::Rar => "application/vnd.rar",
        }
    }

    /// The name under which this format is shown to a person.
    pub fn name(&self) -> (r: &'static str)
        ensures
            r@ == name_of(*self),
    {
        match self {
            ArchiveFormat::Zip => "ZIP",
            ArchiveFormat::TarGz => "TAR.GZ",
            ArchiveFormat::TarXz => "TAR.XZ",
            ArchiveFormat::TarBz2 => "TAR.BZ2",
            ArchiveFormat::TarZst => "TAR.ZST",
            ArchiveFormat::Tar => "TAR",
            ArchiveFormat::SevenZ => "7Z",
            ArchiveFormat::Rar => "RAR",
        }
    }

    /// The standard file extension of this format, without the leading dot.
    pub fn extension(&self) -> (r: &'static str)
        ensures
            r@ == extension_of(*self),
    {
        match self {
            ArchiveFormat::Zip => "zip",
            ArchiveFormat::TarGz => "tar.gz",
            ArchiveFormat::TarXz => "tar.xz",
            ArchiveFormat::TarBz2 => "tar.bz2",
            ArchiveFormat::TarZst => "tar.zst",
            ArchiveFormat::Tar => "tar",
            ArchiveFormat::SevenZ => "7z",
            ArchiveFormat::Rar => "rar",
        }
    }
}

/// The format that a lower-case file name shows by its ending. Compound
/// endings are tried before the bare ".tar" that they end in.
pub open spec fn extension_format(lowered: Seq<char>) -> Option<ArchiveFormat> {
    if ends_with(lowered, ".tar.gz"@) || ends_with(lowered, ".tgz"@) {
        Some(ArchiveFormat::TarGz)
    } else if ends_with(lowered, ".tar.xz"@) || ends_with(lowered, ".txz"@) {
        Some(ArchiveFormat::TarXz)
    } else if ends_with(lowered, ".tar.bz2"@) || ends_with(lowered, ".tbz2"@) {
        Some(ArchiveFormat::TarBz2)
    } else if ends_with(lowered, ".tar.zst"@) {
        Some(ArchiveFormat::TarZst)
    } else if ends_with(lowered, ".tar"@) {
        Some(ArchiveFormat::Tar)
    } else if ends_with(lowered, ".zip"@) {
        Some(ArchiveFormat::Zip)
    } else if ends_with(lowered, ".7z"@) {
        Some(ArchiveFormat::SevenZ)
    } else if ends_with(lowered, ".rar"@) {
        Some(ArchiveFormat::Rar)
    } else {
        None
    }
}

/// Where the ending of the last component of `s` starts: the index of its
/// last dot, or -1 where that component has none.
pub open spec fn ending_start(s: Seq<char>) -> int
    decreases s.len(),
{
    if s.len() == 0 || s.last() == '/' {
        -1
    } else if s.last() == '.' {
        s.len() - 1
    } else {
        ending_start(s.drop_last())
    }
}

/// The ending of a file name, from its last dot on; empty where the name has
/// no dot.
pub open spec fn name_ending(s: Seq<char>) -> Seq<char> {
    if ending_start(s) < 0 {
        Seq::empty()
    } else {
        s.subrange(ending_start(s), s.len() as int)
    }
}

/// The error for a file whose format is not recognised: it names the ending
/// that was not, where the name has one.
pub open spec fn unknown_format(lowered: Seq<char>) -> ErrorModel {
    if name_ending(lowered).len() == 0 {
        ErrorModel::Unsupported { feature: "format"@ }
    } else {
        ErrorModel::Unsupported { feature: "format "@ + name_ending(lowered) }
    }
}

proof fn lemma_ending_start(s: Seq<char>)
    ensures
        -1 <= ending_start(s) < s.len(),
        ending_start(s) >= 0 ==> s[ending_start(s)] == '.',
    decreases s.len(),
{
    if s.len() > 0 && s.last() != '/' && s.last() != '.' {
        lemma_ending_start(s.drop_last());
    }
}

fn find_ending(s: &Vec<char>) -> (r: Option<usize>)
    ensures
        match r {
            Some(j) => j == ending_start(s@),
            None => ending_start(s@) == -1,
        },
{
    let mut i: usize = s.len();
    assert(s@.take(i as int) =~= s@);
    while i > 0
        invariant
            i <= s@.len(),
            ending_start(s@.take(i as int)) == ending_start(s@),
        decreases i,
    {
        if s[i - 1] == '/' {
            return None;
        }
        if s[i - 1] == '.' {
            return Some(i - 1);
        }
        assert(s@.take(i as int).drop_last() =~= s@.take(i - 1));
        i = i - 1;
    }
    assert(s@.take(0) =~= Seq::<char>::empty());
    None
}

/// The error for the lower-case file name `lowered`, whose format is not
/// recognised.
fn unknown_format_error(lowered: &str, text: &Vec<char>) -> (r: ArchiveError)
    requires
        text@ == lowered@,
    ensures
        r@ == unknown_format(lowered@),
{
    proof {
        lemma_ending_start(lowered@);
    }
    match find_ending(text) {
        Some(j) => ArchiveError::Unsupported {
            feature: concat2("format ", lowered.substring_char(j, text.len())),
        },
        None => ArchiveError::unsupported_static("format"),
    }
}

/// What classifying a lower-case file name by its ending gives.
pub open spec fn extension_result(lowered: Seq<char>) -> Result<ArchiveFormat, ErrorModel> {
    match extension_format(lowered) {
        Some(f) => Ok(f),
        None => Err(unknown_format(lowered)),
    }
}

/// Detects the archive format from a file name that is already in lower case.
pub fn detect_from_lowercase(lowered: &str) -> (r: Result<ArchiveFormat, ArchiveError>)
    ensures
        result_model(r) == extension_result(lowered@),
{
    let text = chars_of(lowered);
    if has_suffix(&text, ".tar.gz") || has_suffix(&text, ".tgz") {
        Ok(ArchiveFormat::TarGz)
    } else if has_suffix(&text, ".tar.xz") || has_suffix(&text, ".txz") {
        Ok(ArchiveFormat::TarXz)
    } else if has_suffix(&text, ".tar.bz2") || has_suffix(&text, ".tbz2") {
        Ok(ArchiveFormat::TarBz2)
    } else if has_suffix(&text, ".tar.zst") {
        Ok(ArchiveFormat::TarZst)
    } else if has_suffix(&text, ".tar") {
        Ok(ArchiveFormat::Tar)
    } else if has_suffix(&text, ".zip") {
        Ok(ArchiveFormat::Zip)
    } else if has_suffix(&text, ".7z") {
        Ok(ArchiveFormat::SevenZ)
    } else if has_suffix(&text, ".rar") {
        Ok(ArchiveFormat::Rar)
    } else {
        Err(unknown_format_error(lowered, &text))
    }
}

/// Detects the archive format from a file's path by its ending, without
/// regard to case: the path is lower-cased first.
pub fn detect_from_extension(path: &str) -> (r: Result<ArchiveFormat, ArchiveError>)
    ensures
        result_model(r) == extension_result(lower_of(path@)),
{
    let lowered = lowercase(path);
    detect_from_lowercase(lowered.as_str())
}

/// What classifying a file gives: its first bytes decide where they match a
/// rule, and its lower-case name otherwise.
pub open spec fn file_result(header: Seq<u8>, lowered: Seq<char>) -> Result<ArchiveFormat, ErrorModel> {
    match content_format(header) {
        Some(f) => Ok(f),
        None => extension_result(lowered),
    }
}

/// Detects the format of a file from `header`, the first bytes read from it
/// (up to 512, fewer if the file is shorter), falling back to its path.
pub fn detect_from_file(header: &[u8], path: &str) -> (r: Result<ArchiveFormat, ArchiveError>)
    ensures
        result_model(r) == file_result(header@, lower_of(path@)),
{
    match detect_from_bytes(header) {
        Some(f) => Ok(f),
        None => detect_from_extension(path),
    }
}

/// A text that ends in `a` does not end in `b` where the two differ at the
/// same distance `k` from their ends.
proof fn lemma_endings_differ(text: Seq<char>, a: Seq<char>, b: Seq<char>, k: int)
    requires
        ends_with(text, a),
        1 <= k <= a.len(),
        k <= b.len(),
        a[a.len() - k] != b[b.len() - k],
    ensures
        !ends_with(text, b),
{
    let n = text.len() as int;
    assert(text[n - k] == text.subrange(n - a.len(), n)[a.len() - k]);
    if ends_with(text, b) {
        assert(text[n - k] == text.subrange(n - b.len(), n)[b.len() - k]);
    }
}

/// A compound ending decides over the bare ".tar" it ends in: a lower-case
/// name that ends in ".tar.gz", ".tar.xz", ".tar.bz2" or ".tar.zst" is the
/// compressed container of that kind, never the plain one.
pub proof fn lemma_compound_extension_wins(lowered: Seq<char>)
    ensures
        ends_with(lowered, ".tar.gz"@) ==> extension_format(lowered) == Some(ArchiveFormat::TarGz),
        ends_with(lowered, ".tar.xz"@) ==> extension_format(lowered) == Some(ArchiveFormat::TarXz),
        ends_with(lowered, ".tar.bz2"@) ==> extension_format(lowered) == Some(ArchiveFormat::TarBz2),
        ends_with(lowered, ".tar.zst"@) ==> extension_format(lowered) == Some(ArchiveFormat::TarZst),
{
    reveal_strlit(".tar.gz");
    reveal_strlit(".tgz");
    reveal_strlit(".tar.xz");
    reveal_strlit(".txz");
    reveal_strlit(".tar.bz2");
    reveal_strlit(".tbz2");
    reveal_strlit(".tar.zst");
    if ends_with(lowered, ".tar.xz"@) {
        lemma_endings_differ(lowered, ".tar.xz"@, ".tar.gz"@, 2);
        lemma_endings_differ(lowered, ".tar.xz"@, ".tgz"@, 2);
    }
    if ends_with(lowered, ".tar.bz2"@) {
        lemma_endings_differ(lowered, ".tar.bz2"@, ".tar.gz"@, 1);
        lemma_endings_differ(lowered, ".tar.bz2"@, ".tgz"@, 1);
        lemma_endings_differ(lowered, ".tar.bz2"@, ".tar.xz"@, 1);
        lemma_endings_differ(lowered, ".tar.bz2"@, ".txz"@, 1);
    }
    if ends_with(lowered, ".tar.zst"@) {
        lemma_endings_differ(lowered, ".tar.zst"@, ".tar.gz"@, 1);
        lemma_endings_differ(lowered, ".tar.zst"@, ".tgz"@, 1);
        lemma_endings_differ(lowered, ".tar.zst"@, ".tar.xz"@, 1);
        lemma_endings_differ(lowered, ".tar.zst"@, ".txz"@, 1);
        lemma_endings_differ(lowered, ".tar.zst"@, ".tar.bz2"@, 1);
        lemma_endings_differ(lowered, ".tar.zst"@, ".tbz2"@, 1);
    }
}

/// Whether `sig` occurs in `data` at byte offset `at`.
pub open spec fn occurs_at(data: Seq<u8>, at: int, sig: Seq<u8>) -> bool {
    0 <= at && at + sig.len() <= data.len() && data.subrange(at, at + sig.len()) == sig
}

/// Whether `data` begins with `sig`.
pub open spec fn starts_with(data: Seq<u8>, sig: Seq<u8>) -> bool {
    occurs_at(data, 0, sig)
}

/// The magic bytes that open a file of the given format. The plain container
/// has none at its start: its marker stands at a fixed offset instead.
pub open spec fn leading_signature(f: ArchiveFormat) -> Seq<u8> {
    match f {
        ArchiveFormat::Zip => seq![0x50u8, 0x4B, 0x03, 0x04],
        ArchiveFormat::TarGz => seq![0x1Fu8, 0x8B],
        ArchiveFormat::TarXz => seq![0xFDu8, 0x37, 0x7A, 0x58, 0x5A, 0x00],
        ArchiveFormat::TarBz2 => seq![0x42u8, 0x5A, 0x68],
        ArchiveFormat::TarZst => seq![0x28u8, 0xB5, 0x2F, 0xFD],
        ArchiveFormat::SevenZ => seq![0x37u8, 0x7A, 0xBC, 0xAF, 0x27, 0x1C],
        ArchiveFormat::Rar => seq![0x52u8, 0x61, 0x72, 0x21, 0x1A, 0x07, 0x00],
        ArchiveFormat::Tar => Seq::empty(),
    }
}

/// The ASCII text "ustar", which marks a plain container.
pub open spec fn container_marker() -> Seq<u8> {
    seq![0x75u8, 0x73, 0x74, 0x61, 0x72]
}

/// How many bytes from the start of a file detection looks at.
pub const HEADER_LEN: usize = 512;

/// Byte offset of the plain container's marker.
pub const CONTAINER_MARKER_OFFSET: usize = 257;

/// Fewest bytes in which the plain container's marker is looked for.
pub const CONTAINER_MIN_LEN: usize = 265;

/// Whether `data` carries the plain container's marker: only a buffer of at
/// least 265 bytes can.
pub open spec fn has_container_marker(data: Seq<u8>) -> bool {
    data.len() >= CONTAINER_MIN_LEN && occurs_at(data, CONTAINER_MARKER_OFFSET as int, container_marker())
}

/// The format that the first bytes of a file show, the rules tried in a fixed
/// order and the first that matches deciding.
pub open spec fn content_format(data: Seq<u8>) -> Option<ArchiveFormat> {
    if starts_with(data, leading_signature(ArchiveFormat::Zip)) {
        Some(ArchiveFormat::Zip)
    } else if starts_with(data, leading_signature(ArchiveFormat::TarGz)) {
        Some(ArchiveFormat::TarGz)
    } else if starts_with(data, leading_signature(ArchiveFormat::TarXz)) {
        Some(ArchiveFormat::TarXz)
    } else if starts_with(data, leading_signature(ArchiveFormat::TarBz2)) {
        Some(ArchiveFormat::TarBz2)
    } else if starts_with(data, leading_signature(ArchiveFormat::TarZst)) {
        Some(ArchiveFormat::TarZst)
    } else if starts_with(data, leading_signature(ArchiveFormat::SevenZ)) {
        Some(ArchiveFormat::SevenZ)
    } else if starts_with(data, leading_signature(ArchiveFormat::Rar)) {
        Some(ArchiveFormat::Rar)
    } else if has_container_marker(data) {
        Some(ArchiveFormat::Tar)
    } else {
        None
    }
}

fn occurs_at_exec(data: &[u8], at: usize, sig: &[u8]) -> (r: bool)
    ensures
        r == occurs_at(data@, at as int, sig@),
{
    if at > data.len() || sig.len() > data.len() - at {
        return false;
    }
    let end: usize = at + sig.len();
    let mut i: usize = 0;
    while i < sig.len()
        invariant
            end == at + sig@.len(),
            end <= data@.len(),
            i <= sig@.len(),
            forall|k: int| 0 <= k < i ==> data@[at + k] == sig@[k],
        decreases sig.len() - i,
    {
        if data[at + i] != sig[i] {
            assert(data@.subrange(at as int, at + sig@.len())[i as int] != sig@[i as int]);
            return false;
        }
        i = i + 1;
    }
    assert(data@.subrange(at as int, at + sig@.len()) =~= sig@);
    true
}

/// Detects the archive format from the first bytes of a file. A buffer too
/// short for a rule never matches it, and none is read out of bounds.
pub fn detect_from_bytes(data: &[u8]) -> (r: Option<ArchiveFormat>)
    ensures
        r == content_format(data@),
{
    if occurs_at_exec(data, 0, &[0x50u8, 0x4B, 0x03, 0x04]) {
        Some(ArchiveFormat::Zip)
    } else if occurs_at_exec(data, 0, &[0x1Fu8, 0x8B]) {
        Some(ArchiveFormat::TarGz)
    } else if occurs_at_exec(data, 0, &[0xFDu8, 0x37, 0x7A, 0x58, 0x5A, 0x00]) {
        Some(ArchiveFormat::TarXz)
    } else if occurs_at_exec(data, 0, &[0x42u8, 0x5A, 0x68]) {
        Some(ArchiveFormat::TarBz2)
    } else if occurs_at_exec(data, 0, &[0x28u8, 0xB5, 0x2F, 0xFD]) {
        Some(ArchiveFormat::TarZst)
    } else if occurs_at_exec(data, 0, &[0x37u8, 0x7A, 0xBC, 0xAF, 0x27, 0x1C]) {
        Some(ArchiveFormat::SevenZ)
    } else if occurs_at_exec(data, 0, &[0x52u8, 0x61, 0x72, 0x21, 0x1A, 0x07, 0x00]) {
        Some(ArchiveFormat::Rar)
    } else if data.len() >= CONTAINER_MIN_LEN && occurs_at_exec(
        data,
        CONTAINER_MARKER_OFFSET,
        &[0x75u8, 0x73, 0x74, 0x61, 0x72],
    ) {
        Some(ArchiveFormat::Tar)
    } else {
        None
    }
}

/// Whether a format is recognised by magic bytes at the start of a file.
pub open spec fn has_leading_signature(f: ArchiveFormat) -> bool {
    f != ArchiveFormat::Tar
}

proof fn lemma_first_byte_excludes(data: Seq<u8>, sig: Seq<u8>)
    requires
        data.len() > 0,
        sig.len() > 0,
        data[0] != sig[0],
    ensures
        !starts_with(data, sig),
{
    if starts_with(data, sig) {
        assert(data.subrange(0, sig.len() as int)[0] == data[0]);
    }
}

/// No two leading signatures share their first byte, and each has at least two bytes.
proof fn lemma_signature_leads_distinct(f: ArchiveFormat, g: ArchiveFormat)
    requires
        has_leading_signature(f),
        has_leading_signature(g),
    ensures
        2 <= leading_signature(f).len() <= 7,
        f != g ==> leading_signature(f)[0] != leading_signature(g)[0],
{
}

/// Every buffer whose first byte opens `f`'s signature is classified as `f`
/// or not at all by the rules that come before the plain container's.
proof fn lemma_other_signatures_excluded(f: ArchiveFormat, data: Seq<u8>)
    requires
        has_leading_signature(f),
        data.len() > 0,
        data[0] == leading_signature(f)[0],
    ensures
        forall|g: ArchiveFormat|
            has_leading_signature(g) && g != f ==> !starts_with(data, #[trigger] leading_signature(g)),
{
    assert forall|g: ArchiveFormat| has_leading_signature(g) && g != f implies !starts_with(
        data,
        #[trigger] leading_signature(g),
    ) by {
        lemma_signature_leads_distinct(f, g);
        lemma_signature_leads_distinct(g, f);
        lemma_first_byte_excludes(data, leading_signature(g));
    }
}

/// A buffer that holds exactly a format's signature, followed by any bytes at
/// all, is classified as that format.
pub proof fn lemma_signature_classifies(f: ArchiveFormat, tail: Seq<u8>)
    requires
        has_leading_signature(f),
    ensures
        content_format(leading_signature(f) + tail) == Some(f),
{
    let sig = leading_signature(f);
    let data = sig + tail;
    lemma_signature_leads_distinct(f, f);
    assert(data[0] == sig[0]);
    lemma_other_signatures_excluded(f, data);
    assert(data.subrange(0, sig.len() as int) =~= sig);
}

/// A buffer one byte short of a format's signature, and the empty buffer,
/// match no rule: their classification is left to the file's name.
pub proof fn lemma_short_buffers_unclassified(f: ArchiveFormat)
    requires
        has_leading_signature(f),
    ensures
        content_format(leading_signature(f).drop_last()) is None,
        content_format(Seq::empty()) is None,
{
    let sig = leading_signature(f);
    let data = sig.drop_last();
    lemma_signature_leads_distinct(f, f);
    assert(data[0] == sig[0]);
    lemma_other_signatures_excluded(f, data);
}

/// The plain container is never detected in a buffer shorter than 265 bytes,
/// whatever bytes it holds.
pub proof fn lemma_short_buffer_not_container(data: Seq<u8>)
    requires
        data.len() < CONTAINER_MIN_LEN,
    ensures
        content_format(data) != Some(ArchiveFormat::Tar),
{
}

/// A buffer of at least 265 bytes with "ustar" at offset 257 is a plain
/// container, unless its first byte opens one of the other signatures.
pub proof fn lemma_container_marker_classifies(data: Seq<u8>)
    requires
        has_container_marker(data),
        forall|g: ArchiveFormat|
            has_leading_signature(g) ==> data[0] != #[trigger] leading_signature(g)[0],
    ensures
        content_format(data) == Some(ArchiveFormat::Tar),
{
    assert forall|g: ArchiveFormat| has_leading_signature(g) implies !starts_with(
        data,
        #[trigger] leading_signature(g),
    ) by {
        lemma_signature_leads_distinct(g, g);
        assert(data[0] != leading_signature(g)[0]);
        lemma_first_byte_excludes(data, leading_signature(g));
    }
}

/// The canonical extension of every format names that format again: a file
/// name made of any stem, a dot and the extension is detected as the format.
pub proof fn lemma_extension_names_its_format(f: ArchiveFormat, stem: Seq<char>)
    ensures
        extension_format(stem + seq!['.'] + extension_of(f)) == Some(f),
{
    reveal_strlit(".tar.gz");
    reveal_strlit(".tgz");
    reveal_strlit(".tar.xz");
    reveal_strlit(".txz");
    reveal_strlit(".tar.bz2");
    reveal_strlit(".tbz2");
    reveal_strlit(".tar.zst");
    reveal_strlit(".tar");
    reveal_strlit(".zip");
    reveal_strlit(".7z");
    reveal_strlit(".rar");
    reveal_strlit("tar.gz");
    reveal_strlit("tar.xz");
    reveal_strlit("tar.bz2");
    reveal_strlit("tar.zst");
    reveal_strlit("tar");
    reveal_strlit("zip");
    reveal_strlit("7z");
    reveal_strlit("rar");
    let dotted = seq!['.'] + extension_of(f);
    let name = stem + seq!['.'] + extension_of(f);
    assert(name =~= stem + dotted);
    lemma_ends_with_appended(stem, dotted);
    match f {
        ArchiveFormat::TarGz => {
            assert(dotted =~= ".tar.gz"@);
        },
        ArchiveFormat::TarXz => {
            assert(dotted =~= ".tar.xz"@);
            lemma_endings_differ(name, dotted, ".tar.gz"@, 2);
            lemma_endings_differ(name, dotted, ".tgz"@, 2);
        },
        ArchiveFormat::TarBz2 => {
            assert(dotted =~= ".tar.bz2"@);
            lemma_endings_differ(name, dotted, ".tar.gz"@, 1);
            lemma_endings_differ(name, dotted, ".tgz"@, 1);
            lemma_endings_differ(name, dotted, ".tar.xz"@, 1);
            lemma_endings_differ(name, dotted, ".txz"@, 1);
        },
        ArchiveFormat::TarZst => {
            assert(dotted =~= ".tar.zst"@);
            lemma_endings_differ(name, dotted, ".tar.gz"@, 1);
            lemma_endings_differ(name, dotted, ".tgz"@, 1);
            lemma_endings_differ(name, dotted, ".tar.xz"@, 1);
            lemma_endings_differ(name, dotted, ".txz"@, 1);
            lemma_endings_differ(name, dotted, ".tar.bz2"@, 1);
            lemma_endings_differ(name, dotted, ".tbz2"@, 1);
        },
        ArchiveFormat::Tar => {
            assert(dotted =~= ".tar"@);
            lemma_endings_differ(name, dotted, ".tar.gz"@, 1);
            lemma_endings_differ(name, dotted, ".tgz"@, 1);
            lemma_endings_differ(name, dotted, ".tar.xz"@, 1);
            lemma_endings_differ(name, dotted, ".txz"@, 1);
            lemma_endings_differ(name, dotted, ".tar.bz2"@, 1);
            lemma_endings_differ(name, dotted, ".tbz2"@, 1);
            lemma_endings_differ(name, dotted, ".tar.zst"@, 1);
        },
        ArchiveFormat::Zip => {
            assert(dotted =~= ".zip"@);
            lemma_endings_differ(name, dotted, ".tar.gz"@, 1);
            lemma_endings_differ(name, dotted, ".tgz"@, 1);
            lemma_endings_differ(name, dotted, ".tar.xz"@, 1);
            lemma_endings_differ(name, dotted, ".txz"@, 1);
            lemma_endings_differ(name, dotted, ".tar.bz2"@, 1);
            lemma_endings_differ(name, dotted, ".tbz2"@, 1);
            lemma_endings_differ(name, dotted, ".tar.zst"@, 1);
            lemma_endings_differ(name, dotted, ".tar"@, 1);
        },
        ArchiveFormat::SevenZ => {
            assert(dotted =~= ".7z"@);
            lemma_endings_differ(name, dotted, ".tar.gz"@, 2);
            lemma_endings_differ(name, dotted, ".tgz"@, 2);
            lemma_endings_differ(name, dotted, ".tar.xz"@, 2);
            lemma_endings_differ(name, dotted, ".txz"@, 2);
            lemma_endings_differ(name, dotted, ".tar.bz2"@, 1);
            lemma_endings_differ(name, dotted, ".tbz2"@, 1);
            lemma_endings_differ(name, dotted, ".tar.zst"@, 1);
            lemma_endings_differ(name, dotted, ".tar"@, 1);
            lemma_endings_differ(name, dotted, ".zip"@, 1);
        },
        ArchiveFormat::Rar => {
            assert(dotted =~= ".rar"@);
            lemma_endings_differ(name, dotted, ".tar.gz"@, 1);
            lemma_endings_differ(name, dotted, ".tgz"@, 1);
            lemma_endings_differ(name, dotted, ".tar.xz"@, 1);
            lemma_endings_differ(name, dotted, ".txz"@, 1);
            lemma_endings_differ(name, dotted, ".tar.bz2"@, 1);
            lemma_endings_differ(name, dotted, ".tbz2"@, 1);
            lemma_endings_differ(name, dotted, ".tar.zst"@, 1);
            lemma_endings_differ(name, dotted, ".tar"@, 3);
            lemma_endings_differ(name, dotted, ".zip"@, 1);
            lemma_endings_differ(name, dotted, ".7z"@, 1);
        },
    }
}

} // verus!
