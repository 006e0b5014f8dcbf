use std::io::{Cursor, Write};

use medrun::archive::{extract_archive, plan_extraction, ExtractOp, ZipEntry};

fn sample_archive() -> Vec<u8> {
    let mut w = zip::ZipWriter::new(Cursor::new(Vec::new()));
    let opts = zip::write::FileOptions::default();
    w.add_directory("Lib/", opts).unwrap();
    w.start_file("Lib/site.py", opts).unwrap();
    w.write_all(b"print('hi')\n").unwrap();
    w.start_file("python311._pth", opts).unwrap();
    w.write_all(b"python311.zip\n.\n").unwrap();
    w.finish().unwrap().into_inner()
}

#[test]
fn archive_unpacks_in_order() {
    let ops = extract_archive(&sample_archive()).unwrap();
    assert_eq!(ops.len(), 3);
    match &ops[0] {
        ExtractOp::CreateDir { path } => assert_eq!(path, &vec!["Lib".to_string()]),
        _ => panic!("expected a directory"),
    }
    match &ops[1] {
        ExtractOp::WriteFile { path, contents } => {
            assert_eq!(path, &vec!["Lib".to_string(), "site.py".to_string()]);
            assert_eq!(contents, &b"print('hi')\n".to_vec());
        }
        _ => panic!("expected a file"),
    }
    match &ops[2] {
        ExtractOp::WriteFile { path, contents } => {
            assert_eq!(path, &vec!["python311._pth".to_string()]);
            assert_eq!(contents, &b"python311.zip\n.\n".to_vec());
        }
        _ => panic!("expected a file"),
    }
}

#[test]
fn unreadable_archive_is_an_error() {
    assert!(extract_archive(&b"not a zip archive".to_vec()).is_err());
    assert!(extract_archive(&vec![]).is_err());
}

#[test]
fn entries_become_operations() {
    let entries = vec![
        ZipEntry { name: "a/".to_string(), path: vec!["a".to_string()], contents: vec![] },
        ZipEntry { name: "a/b".to_string(), path: vec!["a".to_string(), "b".to_string()], contents: vec![7] },
    ];
    let ops = plan_extraction(entries);
    assert!(matches!(&ops[0], ExtractOp::CreateDir { path } if path == &vec!["a".to_string()]));
    assert!(matches!(&ops[1], ExtractOp::WriteFile { contents, .. } if contents == &vec![7u8]));
    assert!(plan_extraction(vec![]).is_empty());
}
