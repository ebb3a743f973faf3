use compak::{
    ArchiveError, ArchiveFormat, Decompression, EntryAction, Extraction, Pipeline, dispatch,
};

fn extraction(format: ArchiveFormat, out: &str) -> Extraction {
    Extraction::start(format, String::from(out)).unwrap()
}

fn write_file(parent: &str, path: &str) -> EntryAction {
    EntryAction::WriteFile { parent: String::from(parent), path: String::from(path) }
}

fn create_dir(path: &str) -> EntryAction {
    EntryAction::CreateDir { path: String::from(path) }
}

fn escaping(format: ArchiveFormat, name: &str) -> ArchiveError {
    ArchiveError::InvalidArchive {
        format,
        reason: format!("entry path leaves the output directory: {}", name),
    }
}

#[test]
fn dispatch_table() {
    assert_eq!(dispatch(ArchiveFormat::Zip), Ok(Pipeline::Zip));
    assert_eq!(dispatch(ArchiveFormat::Tar), Ok(Pipeline::Container(Decompression::Identity)));
    assert_eq!(dispatch(ArchiveFormat::TarGz), Ok(Pipeline::Container(Decompression::Gzip)));
    assert_eq!(dispatch(ArchiveFormat::TarXz), Ok(Pipeline::Container(Decompression::Xz)));
    assert_eq!(dispatch(ArchiveFormat::TarBz2), Ok(Pipeline::Container(Decompression::Bzip2)));
    assert_eq!(dispatch(ArchiveFormat::TarZst), Ok(Pipeline::Container(Decompression::Zstd)));
    assert_eq!(dispatch(ArchiveFormat::SevenZ), Ok(Pipeline::SevenZ));
}

#[test]
fn format_without_pipeline_is_unsupported_feature() {
    assert_eq!(
        dispatch(ArchiveFormat::Rar),
        Err(ArchiveError::unsupported_static("RAR extraction"))
    );
    assert_eq!(
        Extraction::start(ArchiveFormat::Rar, String::from("out")).map(|x| x.pipeline),
        Err(ArchiveError::unsupported_static("RAR extraction"))
    );
}

#[test]
fn start_keeps_format_pipeline_and_directory() {
    let x = extraction(ArchiveFormat::TarXz, "target/dir");
    assert_eq!(x.format, ArchiveFormat::TarXz);
    assert_eq!(x.pipeline, Pipeline::Container(Decompression::Xz));
    assert_eq!(x.output_dir, "target/dir");
}

#[test]
fn nested_file_entry_creates_its_directory_first() {
    let x = extraction(ArchiveFormat::TarGz, "out");
    assert_eq!(x.entry("a/b.txt", false), Ok(write_file("out/a", "out/a/b.txt")));
}

#[test]
fn deeply_nested_file_entry() {
    let x = extraction(ArchiveFormat::Tar, "out/");
    assert_eq!(x.entry("a/b/c/d.bin", false), Ok(write_file("out/a/b/c", "out/a/b/c/d.bin")));
}

#[test]
fn top_level_file_entry_writes_into_output_directory() {
    let x = extraction(ArchiveFormat::TarBz2, "existing");
    assert_eq!(x.entry("x.txt", false), Ok(write_file("existing", "existing/x.txt")));
}

#[test]
fn container_directory_entry() {
    let x = extraction(ArchiveFormat::TarZst, "out");
    assert_eq!(x.entry("docs/", true), Ok(create_dir("out/docs/")));
    assert_eq!(x.entry("docs", true), Ok(create_dir("out/docs")));
}

#[test]
fn zip_directory_marker_creates_only_a_directory() {
    let x = extraction(ArchiveFormat::Zip, "out");
    assert_eq!(x.zip_entry("sub/"), Ok(create_dir("out/sub/")));
}

#[test]
fn zip_file_entry() {
    let x = extraction(ArchiveFormat::Zip, "out");
    assert_eq!(x.zip_entry("sub/readme.md"), Ok(write_file("out/sub", "out/sub/readme.md")));
    assert_eq!(x.zip_entry("readme.md"), Ok(write_file("out", "out/readme.md")));
}

#[test]
fn empty_output_directory_means_current_directory() {
    let x = extraction(ArchiveFormat::Zip, "");
    assert_eq!(x.zip_entry("a/b"), Ok(write_file("a", "a/b")));
}

#[test]
fn escaping_entries_are_refused() {
    let x = extraction(ArchiveFormat::TarGz, "out");
    for name in ["../evil", "a/../../b", "..", "a/..", "/etc/passwd", ""] {
        assert_eq!(x.entry(name, false), Err(escaping(ArchiveFormat::TarGz, name)));
        assert_eq!(x.entry(name, true), Err(escaping(ArchiveFormat::TarGz, name)));
    }
    let z = extraction(ArchiveFormat::Zip, "out");
    assert_eq!(z.zip_entry("../up/"), Err(escaping(ArchiveFormat::Zip, "../up/")));
}

#[test]
fn dots_that_are_not_parent_steps_are_kept() {
    let x = extraction(ArchiveFormat::Tar, "out");
    assert_eq!(x.entry("a/..b", false), Ok(write_file("out/a", "out/a/..b")));
    assert_eq!(x.entry("...", false), Ok(write_file("out", "out/...")));
    assert_eq!(x.entry("./c", false), Ok(write_file("out/.", "out/./c")));
}

#[test]
fn backslash_parent_steps_are_refused() {
    let x = extraction(ArchiveFormat::Zip, "out");
    for name in ["..\\x", "a\\..\\..\\b", "a/..\\b", "\\windows\\system32", "sub\\.."] {
        assert_eq!(x.entry(name, false), Err(escaping(ArchiveFormat::Zip, name)));
    }
}

#[test]
fn backslash_without_parent_step_is_kept() {
    let x = extraction(ArchiveFormat::Zip, "out");
    assert_eq!(x.entry("a\\b.txt", false), Ok(write_file("out", "out/a\\b.txt")));
    assert_eq!(x.entry("a\\..b", false), Ok(write_file("out", "out/a\\..b")));
}
