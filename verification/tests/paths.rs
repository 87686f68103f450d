use tinirun::paths::{split_path, validate_path, PathError};

#[test]
fn relative_paths_are_accepted() {
    assert_eq!(validate_path("file.txt"), Ok(()));
    assert_eq!(validate_path("foo/file.txt"), Ok(()));
    assert_eq!(validate_path("foo/Dockerfile"), Ok(()));
    assert_eq!(validate_path("a//b"), Ok(()));
    assert_eq!(validate_path("...hidden"), Ok(()));
    assert_eq!(validate_path("a/..b/c"), Ok(()));
    assert_eq!(validate_path(""), Ok(()));
}

#[test]
fn absolute_paths_are_refused() {
    assert_eq!(validate_path("/etc/passwd"), Err(PathError::AbsolutePath));
    assert_eq!(validate_path("/"), Err(PathError::AbsolutePath));
    assert_eq!(validate_path("/../x"), Err(PathError::AbsolutePath));
}

#[test]
fn dot_components_are_refused() {
    assert_eq!(validate_path("../etc/passwd"), Err(PathError::InvalidPath));
    assert_eq!(validate_path("./file.txt"), Err(PathError::InvalidPath));
    assert_eq!(validate_path("a/../b"), Err(PathError::InvalidPath));
    assert_eq!(validate_path("a/./b"), Err(PathError::InvalidPath));
    assert_eq!(validate_path("a/.."), Err(PathError::InvalidPath));
    assert_eq!(validate_path("."), Err(PathError::InvalidPath));
    assert_eq!(validate_path("./Dockerfile"), Err(PathError::InvalidPath));
}

#[test]
fn dockerfile_is_refused() {
    assert_eq!(validate_path("Dockerfile"), Err(PathError::Dockerfile));
    assert_eq!(validate_path("Dockerfile/"), Err(PathError::Dockerfile));
    assert_eq!(validate_path("Dockerfile//"), Err(PathError::Dockerfile));
    assert_eq!(validate_path("dockerfile"), Ok(()));
}

#[test]
fn path_error_codes_and_messages() {
    assert_eq!(PathError::AbsolutePath.code(), "absolute_path");
    assert_eq!(PathError::AbsolutePath.message(), "file path must be relative");
    assert_eq!(PathError::InvalidPath.code(), "invalid_path");
    assert_eq!(
        PathError::InvalidPath.message(),
        "file path must not have '.' or '..'"
    );
    assert_eq!(PathError::Dockerfile.code(), "dockerfile");
    assert_eq!(PathError::Dockerfile.message(), "cannot provide Dockerfile");
}

#[test]
fn paths_split_into_components() {
    assert_eq!(split_path("a/b/c.txt"), vec!["a", "b", "c.txt"]);
    assert_eq!(split_path("a//b/"), vec!["a", "b"]);
    assert_eq!(split_path("/x"), vec!["x"]);
    assert_eq!(split_path(""), Vec::<String>::new());
    assert_eq!(split_path("///"), Vec::<String>::new());
    assert_eq!(split_path("données/é"), vec!["données", "é"]);
}
