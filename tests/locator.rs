use klocc::expand_url;

fn s(text: &str) -> String {
    text.to_string()
}

#[test]
fn github_url_is_canonical() {
    let r = expand_url(&s("github"), &s("alice"), &s("demo"));
    assert_eq!(r, Ok(s("https://github.com/alice/demo.git")));
}

#[test]
fn gitlab_url_is_canonical() {
    let r = expand_url(&s("gitlab"), &s("bob"), &s("tool"));
    assert_eq!(r, Ok(s("https://gitlab.com/bob/tool.git")));
}

#[test]
fn unknown_provider_is_rejected() {
    let r = expand_url(&s("bitbucket"), &s("alice"), &s("demo"));
    assert_eq!(r, Err(s("Service provider for git with a name 'bitbucket' is not supported!")));
}

#[test]
fn provider_match_is_exact() {
    assert!(expand_url(&s("GitHub"), &s("alice"), &s("demo")).is_err());
    assert!(expand_url(&s(""), &s("alice"), &s("demo")).is_err());
}
