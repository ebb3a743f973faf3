//! The extraction dispatcher: which pipeline extracts a format, and what each
//! entry of an archive becomes under the output directory.
//!
//! The decisions are made here; the caller performs them (creating
//! directories, streaming decoded bytes into files) and reports each entry.

use vstd::prelude::*;
use vstd::string::StrSliceExecFns;

use crate::error::{ArchiveError, ErrorModel, result_model};
use crate::format::{ArchiveFormat, name_of};
use crate::text::{chars_of, concat2, concat3, ends_with, has_suffix};

verus! {

/// The decompression stage in front of a container walk.
#[derive(Debug, Clone, Copy, PartialEq, Eq, Structural)]
pub enum Decompression {
    /// The stream is the container itself.
    Identity,
    Gzip,
    Xz,
    Bzip2,
    Zstd,
}

/// How the entries of an archive are reached.
#[derive(Debug, Clone, Copy, PartialEq, Eq, Structural)]
pub enum Pipeline {
    /// The ZIP central directory, walked entry by entry in index order.
    Zip,
    /// The stream decompressed as given, then walked one container entry at a time.
    Container(Decompression),
    /// The 7-Zip extractor, which handles the whole archive.
    SevenZ,
}

/// The pipeline of each format; a format without one cannot be extracted.
pub open spec fn pipeline_of(f: ArchiveFormat) -> Option<Pipeline> {
    match f {
        ArchiveFormat::Zip => Some(Pipeline::Zip),
        ArchiveFormat::Tar => Some(Pipeline::Container(Decompression::Identity)),
        ArchiveFormat::TarGz => Some(Pipeline::Container(Decompression::Gzip)),
        ArchiveFormat::TarXz => Some(Pipeline::Container(Decompression::Xz)),
        ArchiveFormat::TarBz2 => Some(Pipeline::Container(Decompression::Bzip2)),
        ArchiveFormat::TarZst => Some(Pipeline::Container(Decompression::Zstd)),
        ArchiveFormat::SevenZ => Some(Pipeline::SevenZ),
        ArchiveFormat::Rar => None,
    }
}

/// What dispatching on a format gives: its pipeline, or an "unsupported
/// feature" error that names the format.
pub open spec fn dispatch_result(f: ArchiveFormat) -> Result<Pipeline, ErrorModel> {
    match pipeline_of(f) {
        Some(p) => Ok(p),
        None => Err(ErrorModel::Unsupported { feature: name_of(f) + " extraction"@ }),
    }
}

/// Selects the pipeline that extracts `format`.
pub fn dispatch(format: ArchiveFormat) -> (r: Result<Pipeline, ArchiveError>)
    ensures
        result_model(r) == dispatch_result(format),
{
    match format {
        ArchiveFormat::Zip => Ok(Pipeline::Zip),
        ArchiveFormat::Tar => Ok(Pipeline::Container(Decompression::Identity)),
        ArchiveFormat::TarGz => Ok(Pipeline::Container(Decompression::Gzip)),
        ArchiveFormat::TarXz => Ok(Pipeline::Container(Decompression::Xz)),
        ArchiveFormat::TarBz2 => Ok(Pipeline::Container(Decompression::Bzip2)),
        ArchiveFormat::TarZst => Ok(Pipeline::Container(Decompression::Zstd)),
        ArchiveFormat::SevenZ => Ok(Pipeline::SevenZ),
        ArchiveFormat::Rar => Err(
            ArchiveError::Unsupported { feature: concat2(format.name(), " extraction") },
        ),
    }
}

/// `name` joined onto the directory `dir`, with one separator between them.
pub open spec fn join_path(dir: Seq<char>, name: Seq<char>) -> Seq<char> {
    if dir.len() == 0 || dir.last() == '/' {
        dir + name
    } else {
        dir + seq!['/'] + name
    }
}

/// Whether `c` separates the components of a path. The backslash counts too,
/// since some systems read it so and an archive may come from any of them.
pub open spec fn is_separator(c: char) -> bool {
    c == '/' || c == '\\'
}

/// Whether a ".." component, which names the parent directory, starts at `i`
/// in the relative path `name`.
pub open spec fn is_parent_step(name: Seq<char>, i: int) -> bool {
    &&& 0 <= i
    &&& i + 2 <= name.len()
    &&& name[i] == '.'
    &&& name[i + 1] == '.'
    &&& (i == 0 || is_separator(name[i - 1]))
    &&& (i + 2 == name.len() || is_separator(name[i + 2]))
}

/// Whether an entry's recorded path stays inside the directory it is joined
/// onto: it is not empty, does not start with a separator, and has no ".."
/// component.
pub open spec fn is_safe_entry_path(name: Seq<char>) -> bool {
    &&& name.len() > 0
    &&& !is_separator(name[0])
    &&& forall|i: int| !#[trigger] is_parent_step(name, i)
}

/// The index of the last separator in `s`, or -1 where it has none.
pub open spec fn last_separator(s: Seq<char>) -> int
    decreases s.len(),
{
    if s.len() == 0 {
        -1
    } else if s.last() == '/' {
        s.len() - 1
    } else {
        last_separator(s.drop_last())
    }
}

/// The directory that must exist before the file of the entry `name` is
/// written: the output directory joined with the part of the name before its
/// last separator, or the output directory itself.
pub open spec fn parent_target(out: Seq<char>, name: Seq<char>) -> Seq<char> {
    if last_separator(name) <= 0 {
        out
    } else {
        join_path(out, name.take(last_separator(name)))
    }
}

proof fn lemma_last_separator(s: Seq<char>)
    ensures
        -1 <= last_separator(s) < s.len(),
        last_separator(s) >= 0 ==> s[last_separator(s)] == '/',
    decreases s.len(),
{
    if s.len() > 0 && s.last() != '/' {
        lemma_last_separator(s.drop_last());
    }
}

fn join(dir: &str, name: &str) -> (r: String)
    ensures
        r@ == join_path(dir@, name@),
{
    let d = chars_of(dir);
    if d.len() == 0 || d[d.len() - 1] == '/' {
        concat2(dir, name)
    } else {
        proof {
            reveal_strlit("/");
        }
        concat3(dir, "/", name)
    }
}

fn separator(c: char) -> (r: bool)
    ensures
        r == is_separator(c),
{
    c == '/' || c == '\\'
}

fn safe_entry_path(name: &Vec<char>) -> (r: bool)
    ensures
        r == is_safe_entry_path(name@),
{
    let n = name.len();
    if n == 0 || separator(name[0]) {
        return false;
    }
    let mut i: usize = 0;
    while i < n
        invariant
            n == name@.len(),
            i <= n,
            forall|k: int| 0 <= k < i ==> !is_parent_step(name@, k),
        decreases n - i,
    {
        if n - i >= 2 && name[i] == '.' && name[i + 1] == '.' && (i == 0 || separator(name[i - 1]))
            && (n - i == 2 || separator(name[i + 2])) {
            assert(is_parent_step(name@, i as int));
            return false;
        }
        i = i + 1;
    }
    assert forall|k: int| !#[trigger] is_parent_step(name@, k) by {
        if 0 <= k < n {
        }
    }
    true
}

fn find_last_separator(s: &Vec<char>) -> (r: Option<usize>)
    ensures
        match r {
            Some(j) => j == last_separator(s@),
            None => last_separator(s@) == -1,
        },
{
    let mut i: usize = s.len();
    assert(s@.take(i as int) =~= s@);
    while i > 0
        invariant
            i <= s@.len(),
            last_separator(s@.take(i as int)) == last_separator(s@),
        decreases i,
    {
        if s[i - 1] == '/' {
            return Some(i - 1);
        }
        assert(s@.take(i as int).drop_last() =~= s@.take(i - 1));
        i = i - 1;
    }
    assert(s@.take(0) =~= Seq::<char>::empty());
    None
}

/// What the caller does for one entry of an archive. No action removes
/// anything: extraction merges into what the output directory holds.
#[derive(Debug, PartialEq, Eq)]
pub enum EntryAction {
    /// Create the directory `path`, with any missing parents; an existing
    /// directory is left as it is.
    CreateDir { path: String },
    /// Create the directory `parent`, with any missing parents, then write the
    /// entry's content, in full, to the file `path`.
    WriteFile { parent: String, path: String },
}

/// The model of an [`EntryAction`].
pub enum ActionModel {
    CreateDir { path: Seq<char> },
    WriteFile { parent: Seq<char>, path: Seq<char> },
}

impl View for EntryAction {
    type V = ActionModel;

    open spec fn view(&self) -> ActionModel {
        match self {
            EntryAction::CreateDir { path } => ActionModel::CreateDir { path: path@ },
            EntryAction::WriteFile { parent, path } => ActionModel::WriteFile {
                parent: parent@,
                path: path@,
            },
        }
    }
}

/// The model of a planned action or its error.
pub open spec fn action_result_model(r: Result<EntryAction, ArchiveError>) -> Result<ActionModel, ErrorModel> {
    match r {
        Ok(a) => Ok(a@),
        Err(e) => Err(e@),
    }
}

/// The error for an entry whose path would leave the output directory.
pub open spec fn escaping_entry(format: ArchiveFormat, name: Seq<char>) -> ErrorModel {
    ErrorModel::InvalidArchive {
        format,
        reason: "entry path leaves the output directory: "@ + name,
    }
}

/// What an entry of an archive of `format`, recorded under `name`, becomes
/// under the output directory `out`: refused where its path would leave `out`;
/// a directory where it is one; otherwise a file, written after its parent
/// directory is made.
pub open spec fn entry_result(
    format: ArchiveFormat,
    out: Seq<char>,
    name: Seq<char>,
    is_dir: bool,
) -> Result<ActionModel, ErrorModel> {
    if !is_safe_entry_path(name) {
        Err(escaping_entry(format, name))
    } else if is_dir {
        Ok(ActionModel::CreateDir { path: join_path(out, name) })
    } else {
        Ok(ActionModel::WriteFile { parent: parent_target(out, name), path: join_path(out, name) })
    }
}

/// One extraction in progress: the archive's format, the pipeline chosen for
/// it, and the directory that receives its entries.
pub struct Extraction {
    pub format: ArchiveFormat,
    pub pipeline: Pipeline,
    pub output_dir: String,
}

impl Extraction {
    /// Begins extracting an archive of `format` into `output_dir`. A format
    /// without a pipeline fails here, before anything is touched.
    pub fn start(format: ArchiveFormat, output_dir: String) -> (r: Result<Extraction, ArchiveError>)
        ensures
            match dispatch_result(format) {
                Ok(p) => r matches Ok(x) && x.format == format && x.pipeline == p && x.output_dir@
                    == output_dir@,
                Err(m) => r matches Err(e) && e@ == m,
            },
    {
        match dispatch(format) {
            Ok(pipeline) => Ok(Extraction { format, pipeline, output_dir }),
            Err(e) => Err(e),
        }
    }

    /// The action for an entry recorded under `name`, a directory where
    /// `is_dir` holds.
    pub fn entry(&self, name: &str, is_dir: bool) -> (r: Result<EntryAction, ArchiveError>)
        ensures
            action_result_model(r) == entry_result(self.format, self.output_dir@, name@, is_dir),
    {
        let chars = chars_of(name);
        if !safe_entry_path(&chars) {
            return Err(
                ArchiveError::InvalidArchive {
                    format: self.format,
                    reason: concat2("entry path leaves the output directory: ", name),
                },
            );
        }
        let path = join(self.output_dir.as_str(), name);
        if is_dir {
            return Ok(EntryAction::CreateDir { path });
        }
        proof {
            lemma_last_separator(name@);
        }
        let parent = match find_last_separator(&chars) {
            Some(j) if j > 0 => join(self.output_dir.as_str(), name.substring_char(0, j)),
            _ => String::from_str(self.output_dir.as_str()),
        };
        Ok(EntryAction::WriteFile { parent, path })
    }

    /// The action for a ZIP entry recorded under `name`: a name that ends in a
    /// separator marks a directory.
    pub fn zip_entry(&self, name: &str) -> (r: Result<EntryAction, ArchiveError>)
        ensures
            action_result_model(r) == entry_result(
                self.format,
                self.output_dir@,
                name@,
                ends_with(name@, "/"@),
            ),
    {
        let chars = chars_of(name);
        let is_dir = has_suffix(&chars, "/");
        self.entry(name, is_dir)
    }
}

/// Whether `path` names something inside the directory `out`: it is `out`
/// joined with a relative path that is not empty, not absolute, and never
/// climbs with "..".
pub open spec fn lies_inside(out: Seq<char>, path: Seq<char>) -> bool {
    exists|rel: Seq<char>| is_safe_entry_path(rel) && path == join_path(out, rel)
}

/// The part of a safe path before one of its separators is safe too.
proof fn lemma_safe_prefix(name: Seq<char>, j: int)
    requires
        is_safe_entry_path(name),
        0 < j < name.len(),
        name[j] == '/',
    ensures
        is_safe_entry_path(name.take(j)),
{
    let p = name.take(j);
    assert forall|i: int| !#[trigger] is_parent_step(p, i) by {
        if is_parent_step(p, i) {
            assert(is_parent_step(name, i));
        }
    }
}

/// Extraction merges into the output directory: whatever the directory
/// already holds, the action for an entry touches only paths inside it (the
/// entry's own path and the directory above that) and removes nothing.
pub proof fn lemma_entry_stays_inside(
    format: ArchiveFormat,
    out: Seq<char>,
    name: Seq<char>,
    is_dir: bool,
)
    ensures
        match entry_result(format, out, name, is_dir) {
            Ok(ActionModel::CreateDir { path }) => lies_inside(out, path),
            Ok(ActionModel::WriteFile { parent, path }) => lies_inside(out, path) && (parent == out
                || lies_inside(out, parent)),
            Err(_) => true,
        },
{
    if is_safe_entry_path(name) {
        assert(is_safe_entry_path(name) && join_path(out, name) == join_path(out, name));
        let j = last_separator(name);
        lemma_last_separator(name);
        if j > 0 {
            lemma_safe_prefix(name, j);
            assert(is_safe_entry_path(name.take(j)) && join_path(out, name.take(j)) == join_path(
                out,
                name.take(j),
            ));
        }
    }
}

/// An entry's file lands on its own path and no other: for every relative
/// path `other` that differs from the entry's name, the file written for the
/// entry is not `other` joined onto the output directory. Files already in the
/// output directory under other names are not written over.
pub proof fn lemma_entry_spares_other_paths(
    format: ArchiveFormat,
    out: Seq<char>,
    name: Seq<char>,
    is_dir: bool,
    other: Seq<char>,
)
    requires
        other != name,
    ensures
        entry_result(format, out, name, is_dir) matches Ok(ActionModel::WriteFile { path, .. })
            ==> path != join_path(out, other),
{
    let base = if out.len() == 0 || out.last() == '/' {
        out
    } else {
        out + seq!['/']
    };
    assert(join_path(out, name) =~= base + name);
    assert(join_path(out, other) =~= base + other);
    if base + name == base + other {
        assert(name =~= (base + name).subrange(base.len() as int, (base + name).len() as int));
        assert(other =~= (base + other).subrange(base.len() as int, (base + other).len() as int));
    }
}

} // verus!
