use pdos::dashboard::{
    download_from_device_request, download_signal, downloads_dir, expand_home, join_path, lan_download_url,
    range_start, receive_headers, send_to_device_request, serve_head, serve_status, split_command,
    stream_upload_request, udp_target_name, upload_remote_path, zip_extract_dir, DeviceRequestError, UploadError,
};
use pdos::dashboard::{get_dashboard_html, local_file_name, upload_node_is_uuid};

#[test]
fn home_expansion() {
    assert_eq!(expand_home("~/Downloads/PDOS", "/home/u"), "/home/u/Downloads/PDOS");
    assert_eq!(expand_home("/tmp/x", "/home/u"), "/tmp/x");
    assert_eq!(expand_home("~", "/home/u"), "~");
    assert_eq!(expand_home("a/~/b", "/home/u"), "a/~/b");
    assert_eq!(join_path("/d", "f.txt"), "/d/f.txt");
    assert_eq!(downloads_dir("/home/u"), "/home/u/Downloads/PDOS");
}

#[test]
fn udp_names() {
    assert_eq!(udp_target_name("clip.mp4", 7), "clip.mp4");
    assert_eq!(udp_target_name("", 1700000000), "received_1700000000");
}

#[test]
fn stream_upload_requests() {
    let u = stream_upload_request("node_id=abc&filename=my%2Fdir%2Ffile.txt", 10).unwrap();
    assert_eq!(u.node_id, "abc");
    assert_eq!(u.filename, "my/dir/file.txt");
    assert_eq!(u.tmp_path, "/tmp/pdos_stream_my_dir_file.txt");
    let u = stream_upload_request("node_id=n1", 1).unwrap();
    assert_eq!(u.filename, "upload.bin");
    assert_eq!(u.tmp_path, "/tmp/pdos_stream_upload.bin");
    assert!(matches!(stream_upload_request("filename=a", 10), Err(UploadError::MissingNodeOrEmpty)));
    assert!(matches!(stream_upload_request("node_id=&filename=a", 10), Err(UploadError::MissingNodeOrEmpty)));
    assert!(matches!(stream_upload_request("node_id=x", 0), Err(UploadError::MissingNodeOrEmpty)));
}

#[test]
fn range_headers() {
    assert_eq!(range_start("GET /f HTTP/1.1\r\nRange: bytes=1024-\r\n\r\n"), 1024);
    assert_eq!(range_start("GET /f HTTP/1.1\r\nrange: bytes= 5 -99\r\n\r\n"), 5);
    assert_eq!(range_start("GET /f HTTP/1.1\r\nRange: bytes=x-\r\n\r\n"), 0);
    assert_eq!(range_start("GET /f HTTP/1.1\r\nRange: none\r\n\r\n"), 0);
    assert_eq!(range_start("GET /f HTTP/1.1\r\n\r\n"), 0);
}

#[test]
fn serve_heads() {
    assert_eq!(
        serve_head("a.bin", 100, 0, ""),
        "HTTP/1.1 200 OK\r\nContent-Type: application/octet-stream\r\nContent-Disposition: attachment; filename=\"a.bin\"\r\nAccept-Ranges: bytes\r\nContent-Length: 100\r\nX-File-Checksum: \r\nConnection: close\r\n\r\n"
    );
    assert_eq!(
        serve_head("a.bin", 100, 40, "ab"),
        "HTTP/1.1 206 Partial Content\r\nContent-Type: application/octet-stream\r\nContent-Disposition: attachment; filename=\"a.bin\"\r\nContent-Range: bytes 40-99/100\r\nContent-Length: 60\r\nX-File-Checksum: ab\r\nConnection: close\r\n\r\n"
    );
    assert_eq!(serve_status(5, 5), "completed");
    assert_eq!(serve_status(4, 5), "in_progress");
}

#[test]
fn download_signals() {
    let url = lan_download_url("192.168.1.2", 40000, "f.txt");
    assert_eq!(url, "https://192.168.1.2:40000/f.txt");
    assert_eq!(
        download_signal(&url, "f.txt", 12, "AB:CD"),
        "PDOS_DOWNLOAD::{\"url\":\"https://192.168.1.2:40000/f.txt\",\"filename\":\"f.txt\",\"size\":12,\"fingerprint\":\"AB:CD\"}"
    );
}

#[test]
fn receive_header_fields() {
    let h = "POST /api/receive-file HTTP/1.1\r\nX-Report-Progress-To: http://10.0.0.5:8080/api/report-progress\r\nX-Offset: 4096\r\nX-Total-Size: 10000\r\nX-Filename:  photo.jpg \r\n\r\n";
    let r = receive_headers(h, 1700000000);
    assert_eq!(r.progress_url, Some("http://10.0.0.5:8080/api/report-progress".to_string()));
    assert_eq!(r.offset, 4096);
    assert_eq!(r.total_size, Some(10000));
    assert_eq!(r.filename, "photo.jpg");

    let r = receive_headers("POST / HTTP/1.1\r\nX-Report-Progress-To:   \r\nX-Offset: abc\r\n\r\n", 42);
    assert_eq!(r.progress_url, None);
    assert_eq!(r.offset, 0);
    assert_eq!(r.total_size, None);
    assert_eq!(r.filename, "received_42");
    // The name stops at a second colon.
    assert_eq!(receive_headers("x-filename: a:b.txt\r\n", 1).filename, "a");
}

#[test]
fn received_file_names_stay_in_the_downloads_folder() {
    // Separators become underscores.
    assert_eq!(receive_headers("X-Filename: docs/a.txt\r\n", 7).filename, "docs_a.txt");
    assert_eq!(receive_headers("X-Filename: c\\win\\b.txt\r\n", 7).filename, "c_win_b.txt");
    // Names that would climb out, or name the folder itself, are replaced.
    assert_eq!(receive_headers("X-Filename: ../x\r\n", 7).filename, "received_7");
    assert_eq!(receive_headers("X-Filename: ..\\..\\etc\r\n", 8).filename, "received_8");
    assert_eq!(receive_headers("X-Filename: .\r\n", 9).filename, "received_9");
    assert_eq!(receive_headers("X-Filename: ..\r\n", 9).filename, "received_9");
    assert_eq!(receive_headers("X-Filename:   \r\n", 10).filename, "received_10");
    // A single dot inside a name is fine.
    assert_eq!(receive_headers("X-Filename: .hidden\r\n", 1).filename, ".hidden");
    assert_eq!(receive_headers("X-Filename: v1.2.tar\r\n", 1).filename, "v1.2.tar");
    let dir = downloads_dir("/home/u");
    assert_eq!(join_path(&dir, &receive_headers("X-Filename: ../../.ssh/keys\r\n", 3).filename), "/home/u/Downloads/PDOS/received_3");
}

#[test]
fn zip_directories() {
    assert_eq!(zip_extract_dir("a.zip", "/d/a.zip"), Some("/d/a".to_string()));
    assert_eq!(zip_extract_dir("a.zip.zip", "/d/a.zip.zip"), Some("/d/a".to_string()));
    assert_eq!(zip_extract_dir("a.txt", "/d/a.txt"), None);
    assert_eq!(zip_extract_dir("a.zip", "/d/other"), Some("/d/other".to_string()));
}

#[test]
fn command_split() {
    let (c, args) = split_command("  ls -la /sdcard ").unwrap();
    assert_eq!(c, "ls");
    assert_eq!(args, vec!["-la".to_string(), "/sdcard".to_string()]);
    let (c, args) = split_command("uptime").unwrap();
    assert_eq!(c, "uptime");
    assert!(args.is_empty());
    assert!(split_command("   ").is_none());
}

#[test]
fn upload_paths() {
    assert_eq!(upload_remote_path("a.txt", ""), "/sdcard/Download/a.txt");
    assert_eq!(upload_remote_path("a.txt", "/x/y"), "/x/y");
}

#[test]
fn send_requests() {
    let s = send_to_device_request(Some("10.0.0.2".into()), None, Some("/tmp/f".into()), None).unwrap();
    assert_eq!(s.host, "10.0.0.2");
    assert_eq!(s.port, 8080);
    assert_eq!(s.local_path, "/tmp/f");
    assert_eq!(s.filename, None);
    let s = send_to_device_request(Some("h".into()), Some(65537), Some("/f".into()), Some("n".into())).unwrap();
    assert_eq!(s.port, 1);
    assert_eq!(s.filename, Some("n".to_string()));
    let e = send_to_device_request(Some("".into()), None, Some("/f".into()), None).err().unwrap();
    assert_eq!(e, DeviceRequestError::MissingHostOrLocalPath);
    assert_eq!(e.message(), "{\"error\":\"missing host or local_path\"}");
    assert!(send_to_device_request(Some("h".into()), None, None, None).is_err());
}

#[test]
fn download_requests() {
    let d = download_from_device_request(Some("h".into()), Some(7894), Some("/api/files/movie.mp4".into()), None, "/home/u")
        .unwrap();
    assert_eq!(d.port, 7894);
    assert_eq!(d.local_dir, "/home/u/Downloads/PDOS");
    assert_eq!(d.filename, "movie.mp4");
    assert_eq!(d.output_path, "/home/u/Downloads/PDOS/movie.mp4");
    let d = download_from_device_request(Some("h".into()), None, Some("/".into()), Some("/data".into()), "/home/u").unwrap();
    assert_eq!(d.port, 8080);
    assert_eq!(d.filename, "downloaded.bin");
    assert_eq!(d.output_path, "/data/downloaded.bin");
    let e = download_from_device_request(None, None, Some("/x".into()), None, "/h").err().unwrap();
    assert_eq!(e, DeviceRequestError::MissingHostOrRemotePath);
    assert_eq!(e.message(), "{\"error\":\"missing host or remote_path\"}");
}

#[test]
fn upload_node_must_be_a_uuid() {
    let u = stream_upload_request("node_id=550e8400-e29b-41d4-a716-446655440000&filename=a.txt", 10).unwrap();
    assert!(upload_node_is_uuid(&u));
    let u = stream_upload_request("node_id={550E8400-E29B-41D4-A716-446655440000}&filename=a.txt", 10).unwrap();
    assert!(upload_node_is_uuid(&u));
    let u = stream_upload_request("node_id=550e8400e29b41d4a716446655440000", 10).unwrap();
    assert!(upload_node_is_uuid(&u));
    let u = stream_upload_request("node_id=URN:uuid:550e8400-e29b-41d4-a716-446655440000", 10).unwrap();
    assert!(upload_node_is_uuid(&u));
    let u = stream_upload_request("node_id=urx:uuid:550e8400-e29b-41d4-a716-446655440000", 10).unwrap();
    assert!(!upload_node_is_uuid(&u));
    let u = stream_upload_request("node_id=550e8400-e29b-41d4a716-4466554400000", 10).unwrap();
    assert!(!upload_node_is_uuid(&u));
    let u = stream_upload_request("node_id=abc&filename=a.txt", 10).unwrap();
    assert!(!upload_node_is_uuid(&u));
    let u = stream_upload_request("node_id=550e8400-e29b-41d4-a716-44665544000g", 10).unwrap();
    assert!(!upload_node_is_uuid(&u));
}

#[test]
fn pushed_file_names() {
    assert_eq!(local_file_name("/home/u/photos/cat.jpg"), "cat.jpg");
    assert_eq!(local_file_name("notes.txt"), "notes.txt");
    assert_eq!(local_file_name("/"), "file");
    assert_eq!(local_file_name("/tmp/.."), "file");
}

#[test]
fn control_hub_page() {
    let html = get_dashboard_html();
    assert!(html.starts_with("<!DOCTYPE html>\n<html lang=\"en\">"));
    assert!(html.ends_with("</html>\n"));
    assert!(html.contains("<title>PDOS / HUB</title>"));
    assert!(html.contains("Control Hub loaded. Scanning for devices..."));
    assert_eq!(html.matches("<script>").count(), html.matches("</script>").count());
}
