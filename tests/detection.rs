use compak::{
    Archive, ArchiveError, ArchiveFormat, detect_from_bytes, detect_from_extension,
    detect_from_file, detect_from_lowercase,
};

fn signatures() -> Vec<(Vec<u8>, ArchiveFormat)> {
    vec![
        (vec![0x50, 0x4B, 0x03, 0x04], ArchiveFormat::Zip),
        (vec![0x1F, 0x8B], ArchiveFormat::TarGz),
        (vec![0xFD, 0x37, 0x7A, 0x58, 0x5A, 0x00], ArchiveFormat::TarXz),
        (vec![0x42, 0x5A, 0x68], ArchiveFormat::TarBz2),
        (vec![0x28, 0xB5, 0x2F, 0xFD], ArchiveFormat::TarZst),
        (vec![0x37, 0x7A, 0xBC, 0xAF, 0x27, 0x1C], ArchiveFormat::SevenZ),
        (vec![0x52, 0x61, 0x72, 0x21, 0x1A, 0x07, 0x00], ArchiveFormat::Rar),
    ]
}

fn container_buffer(len: usize) -> Vec<u8> {
    let mut data = vec![0u8; len];
    data[257..262].copy_from_slice(b"ustar");
    data
}

fn unsupported_format(ending: &str) -> ArchiveError {
    if ending.is_empty() {
        ArchiveError::unsupported_static("format")
    } else {
        ArchiveError::Unsupported { feature: format!("format {}", ending) }
    }
}

#[test]
fn each_signature_alone_is_detected() {
    for (sig, format) in signatures() {
        assert_eq!(detect_from_bytes(&sig), Some(format));
    }
}

#[test]
fn each_signature_with_trailing_bytes_is_detected() {
    for (sig, format) in signatures() {
        let mut data = sig.clone();
        data.extend_from_slice(&[0xAA; 600]);
        assert_eq!(detect_from_bytes(&data), Some(format));
    }
}

#[test]
fn signature_one_byte_short_is_not_detected() {
    for (sig, _) in signatures() {
        assert_eq!(detect_from_bytes(&sig[..sig.len() - 1]), None);
    }
}

#[test]
fn empty_buffer_is_not_detected() {
    assert_eq!(detect_from_bytes(&[]), None);
}

#[test]
fn container_marker_at_offset_257_is_detected() {
    assert_eq!(detect_from_bytes(&container_buffer(265)), Some(ArchiveFormat::Tar));
    assert_eq!(detect_from_bytes(&container_buffer(512)), Some(ArchiveFormat::Tar));
}

#[test]
fn container_marker_in_short_buffer_is_not_detected() {
    assert_eq!(detect_from_bytes(&container_buffer(264)), None);
    assert_eq!(detect_from_bytes(&container_buffer(262)), None);
}

#[test]
fn container_marker_elsewhere_is_not_detected() {
    let mut data = vec![0u8; 512];
    data[256..261].copy_from_slice(b"ustar");
    assert_eq!(detect_from_bytes(&data), None);
}

#[test]
fn leading_signature_wins_over_container_marker() {
    let mut data = container_buffer(512);
    data[..2].copy_from_slice(&[0x1F, 0x8B]);
    assert_eq!(detect_from_bytes(&data), Some(ArchiveFormat::TarGz));
}

#[test]
fn unknown_bytes_are_not_detected() {
    assert_eq!(detect_from_bytes(b"hello, world"), None);
}

#[test]
fn every_known_ending_is_detected() {
    let cases = [
        ("a.tar.gz", ArchiveFormat::TarGz),
        ("a.tgz", ArchiveFormat::TarGz),
        ("a.tar.xz", ArchiveFormat::TarXz),
        ("a.txz", ArchiveFormat::TarXz),
        ("a.tar.bz2", ArchiveFormat::TarBz2),
        ("a.tbz2", ArchiveFormat::TarBz2),
        ("a.tar.zst", ArchiveFormat::TarZst),
        ("a.tar", ArchiveFormat::Tar),
        ("a.zip", ArchiveFormat::Zip),
        ("a.7z", ArchiveFormat::SevenZ),
        ("a.rar", ArchiveFormat::Rar),
    ];
    for (path, format) in cases {
        assert_eq!(detect_from_extension(path), Ok(format));
        assert_eq!(detect_from_lowercase(path), Ok(format));
    }
}

#[test]
fn extension_detection_ignores_case() {
    assert_eq!(detect_from_extension("ARCHIVE.TAR.GZ"), Ok(ArchiveFormat::TarGz));
    assert_eq!(detect_from_extension("ARCHIVE.TAR.GZ"), detect_from_extension("archive.tar.gz"));
    assert_eq!(detect_from_extension("Backup.Zip"), Ok(ArchiveFormat::Zip));
    assert_eq!(detect_from_extension("dir/DATA.TBZ2"), Ok(ArchiveFormat::TarBz2));
}

#[test]
fn lowercase_detection_does_not_fold_case() {
    assert_eq!(detect_from_lowercase("ARCHIVE.TAR.GZ"), Err(unsupported_format(".GZ")));
}

#[test]
fn compound_ending_wins_over_bare_container() {
    assert_eq!(detect_from_extension("backup.tar.gz"), Ok(ArchiveFormat::TarGz));
    assert_ne!(detect_from_extension("backup.tar.gz"), Ok(ArchiveFormat::Tar));
    assert_eq!(detect_from_extension("backup.tar.zst"), Ok(ArchiveFormat::TarZst));
    assert_eq!(detect_from_extension("backup.tar.xz"), Ok(ArchiveFormat::TarXz));
    assert_eq!(detect_from_extension("backup.tar.bz2"), Ok(ArchiveFormat::TarBz2));
}

#[test]
fn unknown_ending_is_unsupported_format() {
    assert_eq!(detect_from_extension("file.xyz"), Err(unsupported_format(".xyz")));
    assert_eq!(detect_from_extension("file"), Err(unsupported_format("")));
    assert_eq!(detect_from_extension(""), Err(unsupported_format("")));
    assert_eq!(detect_from_extension("archive.gz"), Err(unsupported_format(".gz")));
    assert_eq!(detect_from_extension("tar"), Err(unsupported_format("")));
    assert_eq!(detect_from_extension("dir.v2/README"), Err(unsupported_format("")));
    assert_eq!(detect_from_extension("Notes.TXT"), Err(unsupported_format(".txt")));
    assert_eq!(
        detect_from_extension("file.xyz").unwrap_err().describe(),
        "Unsupported feature: format .xyz"
    );
}

#[test]
fn content_decides_before_name() {
    let zip = [0x50, 0x4B, 0x03, 0x04, 0x14, 0x00];
    assert_eq!(detect_from_file(&zip, "renamed.tar.gz"), Ok(ArchiveFormat::Zip));
}

#[test]
fn name_decides_when_content_is_unknown() {
    assert_eq!(detect_from_file(b"plain text", "notes.TAR.XZ"), Ok(ArchiveFormat::TarXz));
    assert_eq!(detect_from_file(&[], "empty.7z"), Ok(ArchiveFormat::SevenZ));
}

#[test]
fn unknown_content_and_name_is_unsupported_format() {
    assert_eq!(detect_from_file(b"plain text", "notes.txt"), Err(unsupported_format(".txt")));
}

#[test]
fn archive_open_detects_from_header() {
    let archive = Archive::open(String::from("data.bin"), &[0x28, 0xB5, 0x2F, 0xFD, 0x00]).unwrap();
    assert_eq!(archive.path, "data.bin");
    assert_eq!(archive.format, ArchiveFormat::TarZst);
}

#[test]
fn archive_open_falls_back_to_name() {
    let archive = Archive::open(String::from("data.TGZ"), b"????").unwrap();
    assert_eq!(archive.format, ArchiveFormat::TarGz);
    assert_eq!(
        Archive::open(String::from("data.bin"), b"????"),
        Err(unsupported_format(".bin"))
    );
}

#[test]
fn archive_new_uses_name_only() {
    let archive = Archive::new(String::from("output.tar.gz")).unwrap();
    assert_eq!(archive.path, "output.tar.gz");
    assert_eq!(archive.format, ArchiveFormat::TarGz);
    assert_eq!(Archive::new(String::from("output.xyz")), Err(unsupported_format(".xyz")));
}

#[test]
fn format_extensions() {
    assert_eq!(ArchiveFormat::Zip.extension(), "zip");
    assert_eq!(ArchiveFormat::TarGz.extension(), "tar.gz");
    assert_eq!(ArchiveFormat::TarXz.extension(), "tar.xz");
    assert_eq!(ArchiveFormat::TarBz2.extension(), "tar.bz2");
    assert_eq!(ArchiveFormat::TarZst.extension(), "tar.zst");
    assert_eq!(ArchiveFormat::Tar.extension(), "tar");
    assert_eq!(ArchiveFormat::SevenZ.extension(), "7z");
    assert_eq!(ArchiveFormat::Rar.extension(), "rar");
}

#[test]
fn extension_round_trips_through_detection() {
    let formats = [
        ArchiveFormat::Zip,
        ArchiveFormat::TarGz,
        ArchiveFormat::TarXz,
        ArchiveFormat::TarBz2,
        ArchiveFormat::TarZst,
        ArchiveFormat::Tar,
        ArchiveFormat::SevenZ,
        ArchiveFormat::Rar,
    ];
    for format in formats {
        let path = format!("archive.{}", format.extension());
        assert_eq!(detect_from_extension(&path), Ok(format));
    }
}

#[test]
fn format_mime_types() {
    assert_eq!(ArchiveFormat::Zip.mime_type(), "application/zip");
    assert_eq!(ArchiveFormat::TarGz.mime_type(), "application/gzip");
    assert_eq!(ArchiveFormat::TarXz.mime_type(), "application/x-xz");
    assert_eq!(ArchiveFormat::TarBz2.mime_type(), "application/x-bzip2");
    assert_eq!(ArchiveFormat::TarZst.mime_type(), "application/zstd");
    assert_eq!(ArchiveFormat::Tar.mime_type(), "application/x-tar");
    assert_eq!(ArchiveFormat::SevenZ.mime_type(), "application/x-7z-compressed");
    assert_eq!(ArchiveFormat::Rar.mime_type(), "application/vnd.rar");
}

#[test]
fn format_names() {
    assert_eq!(ArchiveFormat::Zip.name(), "ZIP");
    assert_eq!(ArchiveFormat::TarGz.name(), "TAR.GZ");
    assert_eq!(ArchiveFormat::TarXz.name(), "TAR.XZ");
    assert_eq!(ArchiveFormat::TarBz2.name(), "TAR.BZ2");
    assert_eq!(ArchiveFormat::TarZst.name(), "TAR.ZST");
    assert_eq!(ArchiveFormat::Tar.name(), "TAR");
    assert_eq!(ArchiveFormat::SevenZ.name(), "7Z");
    assert_eq!(ArchiveFormat::Rar.name(), "RAR");
}
