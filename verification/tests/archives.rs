use local_db::archive::{self, Unpacked};
use local_db::linux;
use local_db::LifecycleError;
use std::io::Write;

fn zip_of(entries: &[(&str, Option<&[u8]>)]) -> Vec<u8> {
    let mut writer = zip::ZipWriter::new(std::io::Cursor::new(Vec::new()));
    let options = zip::write::SimpleFileOptions::default();
    for (name, content) in entries {
        match content {
            Some(bytes) => {
                writer.start_file(*name, options).unwrap();
                writer.write_all(bytes).unwrap();
            }
            None => writer.add_directory(*name, options).unwrap(),
        }
    }
    writer.finish().unwrap().into_inner()
}

fn tar_gz_of(entries: &[(&str, &[u8])]) -> Vec<u8> {
    let encoder = flate2::write::GzEncoder::new(Vec::new(), flate2::Compression::default());
    let mut builder = tar::Builder::new(encoder);
    for (path, content) in entries {
        let mut header = tar::Header::new_gnu();
        header.set_size(content.len() as u64);
        header.set_mode(0o755);
        header.set_cksum();
        builder.append_data(&mut header, path, *content).unwrap();
    }
    builder.into_inner().unwrap().finish().unwrap()
}

fn paths(files: &[Unpacked]) -> Vec<(&str, bool)> {
    files.iter().map(|f| (f.path.as_str(), f.is_dir)).collect()
}

fn headers(names: &[(&str, bool)]) -> Vec<(String, bool)> {
    names.iter().map(|(n, d)| (n.to_string(), *d)).collect()
}

#[test]
fn a_zip_under_one_directory_loses_that_directory() {
    let bytes = zip_of(&[
        ("redis-7/", None),
        ("redis-7/redis-server.exe", Some(b"binary")),
        ("redis-7/conf/", None),
        ("redis-7/conf/redis.conf", Some(b"port 6379\n")),
        ("__MACOSX/redis-7/._x", Some(b"junk")),
        ("redis-7/.DS_Store", Some(b"junk")),
    ]);
    let files = archive::unpack_zip(bytes).unwrap();
    assert_eq!(
        paths(&files),
        vec![("redis-server.exe", false), ("conf/", true), ("conf/redis.conf", false)]
    );
    assert_eq!(files[0].content, b"binary");
    assert_eq!(files[1].content, b"");
    assert_eq!(files[2].content, b"port 6379\n");
}

#[test]
fn a_zip_without_a_common_directory_is_unpacked_as_it_is() {
    let bytes = zip_of(&[("a/x.txt", Some(b"x")), ("b/y.txt", Some(b"y")), ("top.txt", Some(b"t"))]);
    let files = archive::unpack_zip(bytes).unwrap();
    assert_eq!(paths(&files), vec![("a/x.txt", false), ("b/y.txt", false), ("top.txt", false)]);
    assert_eq!(files[1].content, b"y");
}

#[test]
fn a_common_directory_that_is_not_listed_stays() {
    let bytes = zip_of(&[("root/a.txt", Some(b"a")), ("root/b.txt", Some(b"b"))]);
    let files = archive::unpack_zip(bytes).unwrap();
    assert_eq!(paths(&files), vec![("root/a.txt", false), ("root/b.txt", false)]);
}

#[test]
fn bytes_that_are_no_zip() {
    match archive::unpack_zip(b"this is not a zip archive".to_vec()) {
        Err(LifecycleError::Provisioning(text)) => {
            assert!(text.starts_with("Failed to open zip archive: "), "{}", text)
        }
        other => panic!("{:?}", other),
    }
    assert!(archive::unpack_zip(Vec::new()).is_err());
}

#[test]
fn an_empty_zip_holds_nothing() {
    let files = archive::unpack_zip(zip_of(&[])).unwrap();
    assert!(files.is_empty());
}

#[test]
fn where_entries_go() {
    let plan = archive::plan_extraction(&headers(&[
        ("pkg/", true),
        ("pkg/bin/tool", false),
        ("pkg", false),
        ("__MACOSX/pkg/x", false),
        ("pkg/.DS_Store", false),
    ]));
    assert_eq!(plan, vec![None, Some("bin/tool".to_string()), None, None, None]);

    let plan = archive::plan_extraction(&headers(&[("pkg/a", false), ("other/b", false), ("", false)]));
    assert_eq!(plan, vec![Some("pkg/a".to_string()), Some("other/b".to_string()), None]);

    assert_eq!(archive::plan_extraction(&headers(&[])), Vec::<Option<String>>::new());
}

#[test]
fn the_common_root() {
    assert_eq!(
        archive::common_root(&headers(&[("a/b", false), ("a/c/d", false), ("a", true)])),
        Some("a".to_string())
    );
    assert_eq!(archive::common_root(&headers(&[("a/b", false), ("ab/c", false)])), None);
    assert_eq!(archive::common_root(&headers(&[("__MACOSX/x", false)])), None);
    assert_eq!(
        archive::common_root(&headers(&[("__MACOSX/x", false), ("r/y", false)])),
        Some("r".to_string())
    );
    assert_eq!(archive::common_root(&headers(&[])), None);
    assert_eq!(archive::common_root(&headers(&[("", false), ("", false)])), None);
    assert_eq!(archive::common_root(&headers(&[("", false), ("a", false)])), None);
    assert!(archive::root_listed(&headers(&[("a/", true), ("a/b", false)]), "a"));
    assert!(archive::root_listed(&headers(&[("a", true)]), "a"));
    assert!(!archive::root_listed(&headers(&[("a", false), ("a/b", false)]), "a"));
}

#[test]
fn pieces_of_names() {
    assert_eq!(archive::first_component("a/b/c"), Some("a".to_string()));
    assert_eq!(archive::first_component("abc"), Some("abc".to_string()));
    assert_eq!(archive::first_component("/abs"), Some("".to_string()));
    assert_eq!(archive::first_component(""), None);
    assert_eq!(archive::without_root("pkg/bin/x", "pkg"), "bin/x");
    assert_eq!(archive::without_root("pkgs/bin/x", "pkg"), "pkgs/bin/x");
    assert_eq!(archive::without_root("pkg", "pkg"), "pkg");
    assert_eq!(archive::destination("pkg/x", Some("pkg")), Some("x".to_string()));
    assert_eq!(archive::destination("pkg/", Some("pkg")), None);
    assert_eq!(archive::destination("pkg", Some("pkg")), None);
    assert_eq!(archive::destination("x", None), Some("x".to_string()));
    assert_eq!(archive::destination("", None), None);
    assert_eq!(archive::destination("a/.DS_Store", None), None);
    assert!(archive::ignored("__MACOSX/a"));
    assert!(archive::ignored("a/.DS_Store"));
    assert!(!archive::ignored("a/__MACOSX"));
    assert_eq!(archive::file_name("a/b/qdrant"), "qdrant");
    assert_eq!(archive::file_name("qdrant"), "qdrant");
    assert_eq!(archive::file_name("qdrant/"), "");
    assert_eq!(archive::file_name(""), "");
}

#[test]
fn the_binary_is_found_in_a_tar_gz() {
    let bytes = tar_gz_of(&[
        ("release/README.md", b"read me"),
        ("release/bin/qdrant", b"the binary"),
        ("release/other/qdrant", b"another"),
    ]);
    assert_eq!(
        archive::unpack_tar_gz_entry(&bytes, "qdrant", "Qdrant binary not found in archive"),
        Ok(b"the binary".to_vec())
    );
    assert_eq!(
        archive::unpack_tar_gz_entry(&bytes, "surreal", "not there"),
        Err(LifecycleError::Provisioning("not there".to_string()))
    );
    match archive::unpack_tar_gz_entry(&b"no archive".to_vec(), "qdrant", "x") {
        Err(LifecycleError::Provisioning(text)) => {
            assert!(text.starts_with("Failed to read tar entries: "), "{}", text)
        }
        other => panic!("{:?}", other),
    }
}

#[test]
fn choosing_among_entries() {
    let entries = vec![
        ("a/x".to_string(), b"1".to_vec()),
        ("b/qdrant".to_string(), b"2".to_vec()),
        ("qdrant".to_string(), b"3".to_vec()),
    ];
    assert_eq!(archive::select_entry(&entries, "qdrant"), Some(1));
    assert_eq!(archive::select_entry(&entries, "x"), Some(0));
    assert_eq!(archive::select_entry(&entries, "a"), None);
    assert_eq!(archive::take_entry(entries, "qdrant", "none"), Ok(b"2".to_vec()));
}

#[test]
fn an_archive_that_unpacks_to_one_directory_is_flattened() {
    assert_eq!(
        linux::move_from_root_if_needed(&headers(&[("mysql-8.4.0", true)])),
        Some("mysql-8.4.0".to_string())
    );
    assert_eq!(linux::move_from_root_if_needed(&headers(&[("qdrant", false)])), None);
    assert_eq!(linux::move_from_root_if_needed(&headers(&[("a", true), ("b", true)])), None);
    assert_eq!(linux::move_from_root_if_needed(&headers(&[])), None);
}

fn stored_zip_of(name: &str, content: &[u8]) -> Vec<u8> {
    let mut writer = zip::ZipWriter::new(std::io::Cursor::new(Vec::new()));
    let options = zip::write::SimpleFileOptions::default()
        .compression_method(zip::CompressionMethod::Stored);
    writer.start_file(name, options).unwrap();
    writer.write_all(content).unwrap();
    writer.finish().unwrap().into_inner()
}

fn replace_all(bytes: &mut [u8], from: &[u8], to: &[u8]) -> usize {
    assert_eq!(from.len(), to.len());
    let mut count = 0;
    let mut i = 0;
    while i + from.len() <= bytes.len() {
        if &bytes[i..i + from.len()] == from {
            bytes[i..i + from.len()].copy_from_slice(to);
            count += 1;
            i += from.len();
        } else {
            i += 1;
        }
    }
    count
}

#[test]
fn a_file_that_cannot_be_read_fails_the_whole_archive() {
    let mut bytes = stored_zip_of("data.bin", b"the-marked-content");
    assert!(archive::unpack_zip(bytes.clone()).is_ok());
    // The bytes of the file no longer match the checksum that the archive keeps.
    assert_eq!(replace_all(&mut bytes, b"the-marked-content", b"the-mangled-content"[..18].as_ref()), 1);
    match archive::unpack_zip(bytes) {
        Err(LifecycleError::Provisioning(text)) => {
            assert!(text.starts_with("Failed to read file from zip: "), "{}", text)
        }
        other => panic!("{:?}", other),
    }
}

#[test]
fn a_file_that_is_left_out_need_not_be_readable() {
    let mut bytes = stored_zip_of("__MACOSX/junk", b"the-marked-content");
    assert_eq!(replace_all(&mut bytes, b"the-marked-content", b"the-mangled-content"[..18].as_ref()), 1);
    assert!(archive::unpack_zip(bytes).unwrap().is_empty());
}

#[test]
fn a_name_that_is_no_utf_8_is_read_as_code_page_437() {
    let mut bytes = stored_zip_of("zzqq.txt", b"x");
    assert!(replace_all(&mut bytes, b"zzqq", b"zz\x81q") >= 1);
    let files = archive::unpack_zip(bytes).unwrap();
    assert_eq!(files.len(), 1);
    assert_eq!(files[0].path, "zz\u{fc}q.txt");
    assert_eq!(files[0].content, b"x");
}

#[test]
fn a_path_that_is_no_utf_8_is_read_with_replacements() {
    let encoder = flate2::write::GzEncoder::new(Vec::new(), flate2::Compression::default());
    let mut builder = tar::Builder::new(encoder);
    let mut header = tar::Header::new_gnu();
    header.set_path("dir/qdrant").unwrap();
    header.set_size(3);
    header.set_mode(0o755);
    header.as_old_mut().name[0] = 0xFF;
    header.set_cksum();
    builder.append(&header, &b"bin"[..]).unwrap();
    let bytes = builder.into_inner().unwrap().finish().unwrap();
    assert_eq!(archive::unpack_tar_gz_entry(&bytes, "qdrant", "none"), Ok(b"bin".to_vec()));
    assert_eq!(
        archive::unpack_tar_gz_entry(&bytes, "\u{fffd}ir", "none"),
        Err(LifecycleError::Provisioning("none".to_string()))
    );
}

#[test]
fn a_tar_gz_that_breaks_off_is_an_error() {
    let bytes = tar_gz_of(&[("release/bin/qdrant", b"the binary")]);
    let cut = bytes[..bytes.len() / 2].to_vec();
    match archive::unpack_tar_gz_entry(&cut, "qdrant", "none") {
        Err(LifecycleError::Provisioning(text)) => {
            assert!(text.starts_with("Failed to read tar entries: "), "{}", text)
        }
        other => panic!("{:?}", other),
    }
}
