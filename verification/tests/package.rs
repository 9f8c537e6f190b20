use leo_core::package::{is_package_name_valid, New, NewError};

#[test]
fn names_of_packages() {
    for name in ["hello", "hello-world", "hello_world", "Hello9", "_x", "-x", "a", "x-1_y"] {
        assert!(is_package_name_valid(name), "{}", name);
    }
    for name in ["", "9lives", "0", "hello world", "hello.world", "héllo", "a/b", "a\\b", " a", "a\n"] {
        assert!(!is_package_name_valid(name), "{}", name);
    }
}

#[test]
fn a_new_project_needs_a_valid_name_and_a_free_directory() {
    assert_eq!(New::new("hello".to_string()).apply(false), Ok("hello".to_string()));
    assert_eq!(New::new("hello".to_string()).apply(true), Err(NewError::DirectoryExists));
    assert_eq!(New::new("9lives".to_string()).apply(false), Err(NewError::InvalidName));
    assert_eq!(New::new("9lives".to_string()).apply(true), Err(NewError::InvalidName));
    assert_eq!(New::new("".to_string()).apply(false), Err(NewError::InvalidName));
}
