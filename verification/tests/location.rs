use vscode_vfs::error::PathError;
use vscode_vfs::location::{resolve_contract_location, Location, MAX_TEXT_BYTES};

fn path(text: &str) -> Location {
    Location::FileSystem { path: text.to_string() }
}

fn url(text: &str) -> Location {
    Location::Url { url: text.to_string() }
}

#[test]
fn contract_is_resolved_beside_the_manifest() {
    let resolved = resolve_contract_location(&path("/proj/Clarinet.toml"), "contracts/a.clar");
    assert_eq!(resolved, Ok(path("/proj/contracts/a.clar")));
    assert_eq!(resolved.unwrap().to_string(), "/proj/contracts/a.clar");
}

#[test]
fn contract_is_resolved_beside_a_manifest_url() {
    let resolved = resolve_contract_location(&url("file:///proj/Clarinet.toml"), "contracts/a.clar");
    assert_eq!(resolved, Ok(url("file:///proj/contracts/a.clar")));
}

#[test]
fn resolution_keeps_query_and_fragment_of_a_url() {
    let manifest = url("vscode-vfs://github/a/b/Clarinet.toml?x=1#f");
    assert_eq!(
        resolve_contract_location(&manifest, "contracts/a.clar"),
        Ok(url("vscode-vfs://github/a/b/contracts/a.clar?x=1#f"))
    );
}

#[test]
fn canonical_text_is_the_text_given() {
    assert_eq!(path("/proj/Clarinet.toml").to_string(), "/proj/Clarinet.toml");
    assert_eq!(url("file:///proj/Clarinet.toml").to_string(), "file:///proj/Clarinet.toml");
    assert_eq!(path("").to_string(), "");
}

#[test]
fn locations_of_two_kinds_differ() {
    assert_ne!(path("file:///proj"), url("file:///proj"));
    assert_eq!(path("/proj"), path("/proj"));
}

#[test]
fn parent_of_a_path_drops_the_last_component() {
    assert_eq!(path("/proj/Clarinet.toml").parent(), Ok(path("/proj")));
    assert_eq!(path("/proj/").parent(), Ok(path("/")));
    assert_eq!(path("Clarinet.toml").parent(), Ok(path("")));
    assert_eq!(path("/proj/sub/../Clarinet.toml").parent(), Ok(path("/proj/sub/..")));
}

#[test]
fn parent_of_a_url_drops_the_last_segment() {
    assert_eq!(url("file:///proj/Clarinet.toml").parent(), Ok(url("file:///proj")));
    assert_eq!(url("file:///Clarinet.toml").parent(), Ok(url("file:///")));
    assert_eq!(url("http://example.com/a/b").parent(), Ok(url("http://example.com/a")));
}

#[test]
fn a_root_has_no_parent() {
    assert_eq!(path("/").parent(), Err(PathError::NoParent));
    assert_eq!(path("").parent(), Err(PathError::NoParent));
    assert_eq!(url("http://example.com/").parent(), Err(PathError::NoParent));
    assert_eq!(url("file:///").parent(), Err(PathError::NoParent));
}

#[test]
fn a_url_without_hierarchy_has_no_parent() {
    assert_eq!(url("mailto:a@b.c").parent(), Err(PathError::NoParent));
}

#[test]
fn a_text_that_is_no_url_has_no_parent_as_a_url() {
    assert_eq!(url("not a url").parent(), Err(PathError::NoParent));
    assert_eq!(url("not a url").append("a.clar"), Err(PathError::InvalidSegment));
}

#[test]
fn append_descends_along_the_relative_path() {
    assert_eq!(path("/proj").append("contracts/a.clar"), Ok(path("/proj/contracts/a.clar")));
    assert_eq!(path("/proj/").append("contracts/a.clar"), Ok(path("/proj/contracts/a.clar")));
    assert_eq!(path("").append("contracts/a.clar"), Ok(path("contracts/a.clar")));
    assert_eq!(
        url("http://example.com/b").append("contracts/a.clar"),
        Ok(url("http://example.com/b/contracts/a.clar"))
    );
}

#[test]
fn append_drops_empty_segments() {
    assert_eq!(path("/proj").append("a//b/./c"), Ok(path("/proj/a/b/c")));
    assert_eq!(url("http://example.com/p").append("a//b/./c"), Ok(url("http://example.com/p/a/b/c")));
}

#[test]
fn append_of_nothing_keeps_the_location() {
    assert_eq!(path("/proj").append(""), Ok(path("/proj")));
    assert_eq!(url("http://example.com/p").append(""), Ok(url("http://example.com/p")));
}

#[test]
fn append_escapes_what_a_url_cannot_hold() {
    assert_eq!(
        url("http://example.com/p").append("a b?c#d"),
        Ok(url("http://example.com/p/a%20b%3Fc%23d"))
    );
}

#[test]
fn append_holds_no_location_below_a_root() {
    assert_eq!(path("/proj").append("../x.clar"), Ok(path("/proj/../x.clar")));
    assert_eq!(path("/proj").append("../../etc/passwd"), Ok(path("/proj/../../etc/passwd")));
    assert_eq!(url("http://example.com/p").append("../x.clar"), Ok(url("http://example.com/p/x.clar")));
}

#[test]
fn append_refuses_an_absolute_path() {
    assert_eq!(path("/proj").append("/etc/passwd"), Err(PathError::InvalidSegment));
    assert_eq!(path("/proj").append("/"), Err(PathError::InvalidSegment));
    assert_eq!(url("http://example.com/p").append("/etc/passwd"), Err(PathError::InvalidSegment));
}

#[test]
fn append_refuses_a_url_without_hierarchy() {
    assert_eq!(url("mailto:a@b.c").append("a.clar"), Err(PathError::InvalidSegment));
}

#[test]
fn append_refuses_an_over_long_text() {
    let long = "a".repeat(MAX_TEXT_BYTES + 1);
    let at_limit = "a".repeat(MAX_TEXT_BYTES);
    assert_eq!(path("/proj").append(&long), Err(PathError::InvalidSegment));
    assert_eq!(path(&long).append("a.clar"), Err(PathError::InvalidSegment));
    assert!(path("/proj").append(&at_limit).is_ok());
}

#[test]
fn admits_tells_what_append_refuses_unseen() {
    assert!(path("/proj").admits("contracts/a.clar"));
    assert!(path("/proj").admits(""));
    assert!(path("/proj").admits("../x"));
    assert!(!path("/proj").admits("/x"));
    assert!(!path("/proj").admits(&"a".repeat(MAX_TEXT_BYTES + 1)));
    assert!(path("/proj").admits(&"a".repeat(MAX_TEXT_BYTES)));
    assert!(!path(&"é".repeat(MAX_TEXT_BYTES / 2 + 1)).admits("x"));
    assert!(path(&"é".repeat(MAX_TEXT_BYTES / 2)).admits("x"));
}

#[test]
fn accept_parent_refuses_the_location_itself() {
    let root = url("http://example.com/");
    assert_eq!(root.accept_parent(Some(url("http://example.com/"))), Err(PathError::NoParent));
    assert_eq!(root.accept_parent(None), Err(PathError::NoParent));
    assert_eq!(
        url("http://example.com/a").accept_parent(Some(url("http://example.com/"))),
        Ok(url("http://example.com/"))
    );
}

#[test]
fn accept_appended_lays_failure_to_the_segment() {
    assert_eq!(Location::accept_appended(None), Err(PathError::InvalidSegment));
    assert_eq!(Location::accept_appended(Some(path("/a/b"))), Ok(path("/a/b")));
}

#[test]
fn resolution_fails_at_the_first_step_that_fails() {
    assert_eq!(resolve_contract_location(&path("/"), "a.clar"), Err(PathError::NoParent));
    assert_eq!(resolve_contract_location(&path("/"), "/a.clar"), Err(PathError::NoParent));
    assert_eq!(
        resolve_contract_location(&path("/proj/Clarinet.toml"), "/a.clar"),
        Err(PathError::InvalidSegment)
    );
    assert_eq!(
        resolve_contract_location(&url("mailto:a@b.c"), "a.clar"),
        Err(PathError::NoParent)
    );
}

#[test]
fn resolution_of_a_bare_manifest_name_is_relative() {
    assert_eq!(
        resolve_contract_location(&path("Clarinet.toml"), "contracts/a.clar"),
        Ok(path("contracts/a.clar"))
    );
}

#[test]
fn parent_refuses_an_over_long_text() {
    let long = format!("/proj/{}", "a".repeat(MAX_TEXT_BYTES));
    assert!(!path(&long).fits());
    assert_eq!(path(&long).parent(), Err(PathError::NoParent));
    assert_eq!(url(&format!("file://{}", long)).parent(), Err(PathError::NoParent));
    assert!(path("/proj/Clarinet.toml").fits());
    assert!(path(&"a".repeat(MAX_TEXT_BYTES)).fits());
}
