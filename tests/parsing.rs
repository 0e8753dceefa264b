use projx::reference::{ParseError, Provider, Repository};

fn parsed(input: &str) -> Repository {
    match Repository::parse(input.to_string()) {
        Ok(repo) => repo,
        Err(e) => panic!("{} did not parse: {}", input, e.message()),
    }
}

fn refused(input: &str) -> ParseError {
    match Repository::parse(input.to_string()) {
        Ok(repo) => panic!("{} parsed as {}/{}", input, repo.owner(), repo.name()),
        Err(e) => e,
    }
}

#[test]
fn shorthand_github() {
    let repo = parsed("github/alice/foo");
    assert_eq!(repo.provider(), Provider::Github);
    assert_eq!(repo.owner(), "alice");
    assert_eq!(repo.name(), "foo");
}

#[test]
fn shorthand_gitlab() {
    let repo = parsed("gitlab/bob/bar");
    assert_eq!(repo.provider(), Provider::Gitlab);
    assert_eq!(repo.owner(), "bob");
    assert_eq!(repo.name(), "bar");
}

#[test]
fn shorthand_with_four_fields_is_refused() {
    assert!(matches!(refused("github/alice/foo/bar"), ParseError::TooManyFields));
    assert_eq!(refused("github/alice/foo/").message(), "too many fields");
}

#[test]
fn shorthand_empty_owner() {
    assert!(matches!(refused("github//foo"), ParseError::MissingOwner));
}

#[test]
fn shorthand_empty_name() {
    assert!(matches!(refused("github/alice/"), ParseError::MissingRepo));
}

#[test]
fn shorthand_dot_components_are_refused() {
    assert!(matches!(refused("github/../foo"), ParseError::MissingOwner));
    assert!(matches!(refused("github/./foo"), ParseError::MissingOwner));
    assert!(matches!(refused("gitlab/bob/.."), ParseError::MissingRepo));
    assert!(matches!(refused("gitlab/bob/."), ParseError::MissingRepo));
}

#[test]
fn shorthand_first_field_without_scheme() {
    match refused("github.com/alice/foo") {
        ParseError::UnknownProvider(t) => assert_eq!(t, "github.com"),
        e => panic!("unexpected {:?}", e),
    }
    match refused("bit-bucket/alice/foo") {
        ParseError::UnknownProvider(t) => assert_eq!(t, "bit-bucket"),
        e => panic!("unexpected {:?}", e),
    }
}

#[test]
fn shorthand_keeps_text_verbatim() {
    let repo = parsed("github/Alice/foo.git");
    assert_eq!(repo.owner(), "Alice");
    assert_eq!(repo.name(), "foo.git");
}

#[test]
fn shorthand_unknown_provider() {
    match refused("bitbucket/alice/foo") {
        ParseError::UnknownProvider(t) => assert_eq!(t, "bitbucket"),
        e => panic!("unexpected {:?}", e),
    }
}

#[test]
fn shorthand_provider_is_case_sensitive() {
    match refused("GitHub/alice/foo") {
        ParseError::UnknownProvider(t) => assert_eq!(t, "GitHub"),
        e => panic!("unexpected {:?}", e),
    }
}

#[test]
fn shorthand_missing_owner() {
    assert!(matches!(refused("github"), ParseError::MissingOwner));
}

#[test]
fn shorthand_missing_repo() {
    assert!(matches!(refused("gitlab/bob"), ParseError::MissingRepo));
}

#[test]
fn empty_input_is_unknown_provider() {
    match refused("") {
        ParseError::UnknownProvider(t) => assert_eq!(t, ""),
        e => panic!("unexpected {:?}", e),
    }
}

#[test]
fn url_github() {
    let repo = parsed("https://github.com/alice/foo");
    assert_eq!(repo.provider(), Provider::Github);
    assert_eq!(repo.owner(), "alice");
    assert_eq!(repo.name(), "foo");
}

#[test]
fn url_gitlab_with_trailing_parts() {
    let repo = parsed("https://gitlab.com/bob/bar/-/tree/main?x=1");
    assert_eq!(repo.provider(), Provider::Gitlab);
    assert_eq!(repo.owner(), "bob");
    assert_eq!(repo.name(), "bar");
}

#[test]
fn url_host_is_read_by_the_url_parser() {
    let repo = parsed("HTTPS://GitHub.COM/alice/foo.git");
    assert_eq!(repo.provider(), Provider::Github);
    assert_eq!(repo.name(), "foo.git");
}

#[test]
fn url_skips_empty_segments() {
    let repo = parsed("https://github.com//alice//foo");
    assert_eq!(repo.owner(), "alice");
    assert_eq!(repo.name(), "foo");
}

#[test]
fn url_unsupported_host() {
    match refused("https://example.com/alice/foo") {
        ParseError::UnsupportedProvider(h) => assert_eq!(h, "example.com"),
        e => panic!("unexpected {:?}", e),
    }
}

#[test]
fn url_unsupported_host_without_path() {
    match refused("https://bitbucket.org") {
        ParseError::UnsupportedProvider(h) => assert_eq!(h, "bitbucket.org"),
        e => panic!("unexpected {:?}", e),
    }
}

#[test]
fn url_missing_owner() {
    assert!(matches!(refused("https://github.com/"), ParseError::MissingOwner));
}

#[test]
fn url_missing_repo() {
    assert!(matches!(refused("https://gitlab.com/bob"), ParseError::MissingRepo));
}

#[test]
fn url_without_host() {
    assert!(matches!(refused("mailto:alice@github.com"), ParseError::NoHost));
}

#[test]
fn provider_tables() {
    assert_eq!(Provider::Github.token(), "github");
    assert_eq!(Provider::Gitlab.token(), "gitlab");
    assert_eq!(Provider::Github.host(), "github.com");
    assert_eq!(Provider::Gitlab.host(), "gitlab.com");
    assert_eq!(Provider::from_token("gitlab"), Some(Provider::Gitlab));
    assert_eq!(Provider::from_token("gitlab.com"), None);
    assert_eq!(Provider::from_host("github.com"), Some(Provider::Github));
    assert_eq!(Provider::from_host("github"), None);
}

#[test]
fn directory_and_url() {
    let repo = parsed("gitlab/bob/bar");
    assert_eq!(repo.provider_str(), "gitlab");
    assert_eq!(repo.directory(), "gitlab/bob/bar");
    assert_eq!(repo.url(), "https://gitlab.com/bob/bar");
    let repo = parsed("https://github.com/alice/foo");
    assert_eq!(repo.directory(), "github/alice/foo");
    assert_eq!(repo.url(), "https://github.com/alice/foo");
}

#[test]
fn url_parts_are_read_directly() {
    let segments = vec![String::new(), "alice".to_string(), "foo".to_string()];
    let repo = match Repository::from_url_parts(Some("github.com".to_string()), Some(segments)) {
        Ok(repo) => repo,
        Err(e) => panic!("refused: {}", e.message()),
    };
    assert_eq!(repo.owner(), "alice");
    assert_eq!(repo.name(), "foo");
    assert!(matches!(Repository::from_url_parts(None, None), Err(ParseError::NoHost)));
    let dotted = vec!["..".to_string(), "foo".to_string()];
    assert!(matches!(
        Repository::from_url_parts(Some("github.com".to_string()), Some(dotted)),
        Err(ParseError::MissingOwner)
    ));
    assert!(matches!(
        Repository::from_url_parts(Some("gitlab.com".to_string()), None),
        Err(ParseError::NoBase)
    ));
}

#[test]
fn parse_error_messages() {
    assert_eq!(refused("github").message(), "no owner");
    assert_eq!(refused("github/alice").message(), "no repo");
    assert_eq!(refused("svn/a/b").message(), "unknown provider: svn");
    assert_eq!(
        refused("https://example.com/a/b").message(),
        "unsupported git provider: example.com"
    );
}
