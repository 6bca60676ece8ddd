use prometheus_agents_setup::downloader::{
    get_parent_directory, join_path, path_exists, plan_tar_gz_extraction, plan_zip_extraction,
};
use prometheus_agents_setup::errors::AcquisitionError;
use std::io::Write;

#[test]
fn test_path_exists() {
    let temp_dir = tempfile::TempDir::new().unwrap();
    let existing_path = temp_dir.path();
    let non_existing_path = temp_dir.path().join("nonexistent");

    assert!(path_exists(existing_path.to_str().unwrap()));
    assert!(!path_exists(non_existing_path.to_str().unwrap()));
}

#[test]
fn test_get_parent_directory() {
    let path = "/home/user/file.txt";
    let parent = get_parent_directory(path);
    assert_eq!(parent, Some("/home/user".to_string()));

    let root_path = "/";
    let root_parent = get_parent_directory(root_path);
    assert_eq!(root_parent, None);
}

#[test]
fn parent_of_top_level_path_is_root() {
    assert_eq!(get_parent_directory("/etc"), Some("/".to_string()));
}

#[test]
fn parent_of_separatorless_path_is_none() {
    assert_eq!(get_parent_directory("file.txt"), None);
    assert_eq!(get_parent_directory(""), None);
}

#[test]
fn join_path_uses_unix_separator() {
    assert_eq!(join_path("/opt/prometheus", "node_exporter"), "/opt/prometheus/node_exporter");
}

#[test]
fn test_extract_tar_gz_with_invalid_data() {
    let invalid_data = b"not a tar.gz file".to_vec();
    let result = plan_tar_gz_extraction(&invalid_data, "/tmp/extract");
    match result {
        Err(AcquisitionError::Archive(_)) => {}
        other => panic!("expected an archive error, got {:?}", other.map(|_| ())),
    }
}

#[test]
fn test_extract_zip_with_invalid_data() {
    let invalid_data = b"not a zip file".to_vec();
    let result = plan_zip_extraction(&invalid_data, "/tmp/extract");
    match result {
        Err(AcquisitionError::Archive(_)) => {}
        other => panic!("expected an archive error, got {:?}", other.map(|_| ())),
    }
}

#[test]
fn tar_gz_extraction_plans_decoded_entries() {
    let mut tar_bytes: Vec<u8> = Vec::new();
    {
        let mut builder = tar::Builder::new(&mut tar_bytes);
        let mut header = tar::Header::new_gnu();
        header.set_size(5);
        header.set_mode(0o755);
        builder
            .append_data(&mut header, "bin/node_exporter", &b"hello"[..])
            .unwrap();
        let mut plain = tar::Header::new_gnu();
        plain.set_size(4);
        plain.set_mode(0o644);
        builder.append_data(&mut plain, "NOTICE", &b"text"[..]).unwrap();
        builder.finish().unwrap();
    }
    let mut gz = flate2::write::GzEncoder::new(Vec::new(), flate2::Compression::default());
    gz.write_all(&tar_bytes).unwrap();
    let gz_bytes = gz.finish().unwrap();

    let plan = plan_tar_gz_extraction(&gz_bytes, "/opt/prometheus/node_exporter").unwrap();
    assert_eq!(plan.dirs.len(), 1);
    assert_eq!(plan.dirs[0], "/opt/prometheus/node_exporter");
    assert_eq!(plan.files.len(), 2);
    assert_eq!(plan.files[0].path, "/opt/prometheus/node_exporter/bin/node_exporter");
    assert_eq!(plan.files[0].bytes, b"hello".to_vec());
    assert!(plan.files[0].executable);
    assert_eq!(plan.files[1].path, "/opt/prometheus/node_exporter/NOTICE");
    assert_eq!(plan.files[1].bytes, b"text".to_vec());
    assert!(!plan.files[1].executable);
}

#[test]
fn zip_extraction_plans_decoded_entries() {
    let mut cursor = std::io::Cursor::new(Vec::new());
    {
        let mut writer = zip::ZipWriter::new(&mut cursor);
        let options = zip::write::SimpleFileOptions::default();
        writer.start_file("tools/agent", options).unwrap();
        writer.write_all(b"payload").unwrap();
        writer.add_directory("docs/", options).unwrap();
        writer.start_file("README", options).unwrap();
        writer.write_all(b"read me").unwrap();
        writer.finish().unwrap();
    }
    let bytes = cursor.into_inner();

    let plan = plan_zip_extraction(&bytes, "/opt/x").unwrap();
    assert_eq!(plan.dirs.len(), 2);
    assert_eq!(plan.dirs[0], "/opt/x");
    assert_eq!(plan.dirs[1], "/opt/x/docs/");
    assert_eq!(plan.files.len(), 2);
    assert_eq!(plan.files[0].path, "/opt/x/tools/agent");
    assert_eq!(plan.files[0].bytes, b"payload".to_vec());
    assert!(plan.files[0].executable);
    assert_eq!(plan.files[1].path, "/opt/x/README");
    assert_eq!(plan.files[1].bytes, b"read me".to_vec());
    assert!(!plan.files[1].executable);
}
