use upload_store::extension::extract_extension;
use upload_store::store::StoreError;

#[test]
fn simple_name_yields_suffix() {
    assert_eq!(extract_extension("a.txt"), Ok("txt".to_string()));
}

#[test]
fn only_the_last_dot_splits() {
    assert_eq!(extract_extension("archive.tar.gz"), Ok("gz".to_string()));
}

#[test]
fn name_without_dot_is_rejected() {
    assert_eq!(extract_extension("noext"), Err(StoreError::MissingExtension));
}

#[test]
fn trailing_dot_yields_empty_extension() {
    assert_eq!(extract_extension("trailing."), Ok(String::new()));
}

#[test]
fn empty_name_is_rejected() {
    assert_eq!(extract_extension(""), Err(StoreError::MissingExtension));
}

#[test]
fn extension_case_is_preserved() {
    assert_eq!(extract_extension("photo.JPeG"), Ok("JPeG".to_string()));
}

#[test]
fn non_ascii_names_are_split_correctly() {
    assert_eq!(extract_extension("résumé.pdf"), Ok("pdf".to_string()));
    assert_eq!(extract_extension("säge.tar.gz"), Ok("gz".to_string()));
}

#[test]
fn leading_dot_counts_as_separator() {
    assert_eq!(extract_extension(".bashrc"), Ok("bashrc".to_string()));
}
