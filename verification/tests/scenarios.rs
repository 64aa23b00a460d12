use standard_error::{fail, propagate, propagate_with, ForeignError, StandardResult};
use std::path::{Component, Path};

/// The path without its `.` components, as text.
fn normalized(path: &Path) -> String {
    let mut parts: Vec<String> = Vec::new();
    for component in path.components() {
        match component {
            Component::CurDir => {}
            other => parts.push(other.as_os_str().to_string_lossy().into_owned()),
        }
    }
    parts.join("/")
}

/// Reads a whole file from a store that holds a single file, `binary_file`,
/// whose content is not text. Every other path fails as a missing file does.
fn read_to_end(path: &Path) -> Result<Vec<u8>, ForeignError> {
    let name = normalized(path);
    if name == "binary_file" {
        Ok(vec![0x00, 0x9f, 0x92, 0x96, 0xff])
    } else {
        Err(ForeignError {
            description: "couldn't open path as file".to_string(),
            detail: Some(format!(
                "no such file or directory; path={}; mode=open; access=read",
                name
            )),
            cause: None,
        })
    }
}

fn success() -> StandardResult<String> {
    Ok("Hello".to_string())
}

fn read_file(path: &Path) -> StandardResult<String> {
    let buffer = propagate(read_to_end(path))?;
    let result = propagate_with(String::from_utf8(buffer), "cannot read binary file")?;
    Ok(result)
}

fn read_file_with_format(path: &Path) -> StandardResult<String> {
    let buffer = propagate_with(
        read_to_end(path),
        format!("cannot read file {} as path", normalized(path)),
    )?;
    let result = propagate_with(String::from_utf8(buffer), "cannot read binary file")?;
    Ok(result)
}

fn fail_with_message() -> StandardResult<String> {
    fail("OMG!")
}

fn fail_with_format(what: &str) -> StandardResult<String> {
    fail(format!("OMG! {}", what))
}

#[test]
fn test_success() {
    match success() {
        Ok(text) => assert_eq!("Hello", text.as_str()),
        Err(err) => panic!("should succeed: {}", err.description()),
    }
}

#[test]
fn test_io_error() {
    let result = read_file(&Path::new("./Hello"));
    match result {
        Ok(_) => panic!("should fail!"),
        Err(err) => {
            assert_eq!(err.description(), "couldn't open path as file");
        }
    }
}

#[test]
fn test_try_with_message() {
    let result = read_file(&Path::new("./binary_file"));
    match result {
        Ok(_) => panic!("should fail!"),
        Err(err) => assert_eq!(err.description(), "cannot read binary file"),
    }
}

#[test]
fn test_try_with_format() {
    let result = read_file_with_format(&Path::new("./Hello"));
    match result {
        Ok(_) => panic!("should fail!"),
        Err(err) => assert_eq!(err.description(), "cannot read file Hello as path"),
    }
}

#[test]
fn test_fail_macro_error() {
    let result = fail_with_message();
    match result {
        Ok(_) => panic!("should fail!"),
        Err(err) => assert_eq!(err.description(), "OMG!"),
    }
}

#[test]
fn test_fail_macro_error_with_format() {
    let result = fail_with_format("woop");
    match result {
        Ok(_) => panic!("should fail!"),
        Err(err) => assert_eq!(err.description(), "OMG! woop"),
    }
}

#[test]
fn io_error_keeps_its_detail_and_has_no_cause() {
    match read_file(&Path::new("./Hello")) {
        Ok(_) => panic!("should fail!"),
        Err(err) => {
            assert_eq!(
                err.detail(),
                Some("no such file or directory; path=Hello; mode=open; access=read")
            );
            assert!(err.cause().is_none());
        }
    }
}

#[test]
fn replaced_failure_has_neither_detail_nor_cause() {
    match read_file_with_format(&Path::new("./Hello")) {
        Ok(_) => panic!("should fail!"),
        Err(err) => {
            assert_eq!(err.detail(), None);
            assert!(err.cause().is_none());
        }
    }
}

#[test]
fn binary_file_fails_with_the_format_too() {
    match read_file_with_format(&Path::new("./binary_file")) {
        Ok(_) => panic!("should fail!"),
        Err(err) => assert_eq!(err.description(), "cannot read binary file"),
    }
}
