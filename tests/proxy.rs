use pigi::config::{Config, ConfigError};
use pigi::credential::GithubToken;
use pigi::error::ErrorResponse;
use pigi::handlers::{
    index_redirect, package, package_redirect, plan_asset, plan_package, simple, AppState,
};
use pigi::registry::{Repositories, Repository};
use pigi::upstream::{
    accept_reply, assets_of_releases, is_success, Asset, GithubClient, Release, Reply,
};

fn s(v: &str) -> String {
    v.to_string()
}

fn repo(owner: &str, name: &str) -> Repository {
    Repository::new(s(owner), s(name)).unwrap()
}

fn asset(id: u64, name: &str) -> Asset {
    Asset { id, name: s(name) }
}

fn state(token: Option<&str>) -> AppState {
    let repos = Repositories::new()
        .insert(s("tool"), repo("acme", "tool-rs"))
        .insert(s("lib"), repo("acme", "lib"));
    let config = Config::from_values(None, None, token.map(s)).ok().unwrap();
    AppState { config, repos }
}

fn pairs(hs: &Vec<(String, String)>) -> Vec<(&str, &str)> {
    hs.iter().map(|(n, v)| (n.as_str(), v.as_str())).collect()
}

fn auth_of(hs: &Vec<(String, String)>) -> Option<String> {
    hs.iter().find(|(n, _)| n == "authorization").map(|(_, v)| v.clone())
}

#[test]
fn repository_needs_owner_and_name() {
    assert!(Repository::new(s(""), s("x")).is_none());
    assert!(Repository::new(s("o"), s("")).is_none());
    let r = repo("o", "x");
    assert_eq!(r.owner(), "o");
    assert_eq!(r.name(), "x");
}

#[test]
fn registry_lookup_is_exact() {
    let st = state(None);
    assert_eq!(st.repos.get(&s("tool")).unwrap().name(), "tool-rs");
    assert!(st.repos.get(&s("Tool")).is_none());
    assert!(st.repos.get(&s("tool ")).is_none());
    assert!(st.repos.get(&s("")).is_none());
}

#[test]
fn registry_insert_replaces() {
    let repos = Repositories::new()
        .insert(s("a"), repo("o1", "n1"))
        .insert(s("a"), repo("o2", "n2"));
    assert_eq!(repos.all(), vec![s("a")]);
    assert_eq!(repos.get(&s("a")).unwrap().owner(), "o2");
}

#[test]
fn registry_all_lists_each_name_once() {
    let mut names = state(None).repos.all();
    names.sort();
    assert_eq!(names, vec![s("lib"), s("tool")]);
    assert!(Repositories::new().all().is_empty());
}

#[test]
fn index_lists_every_package() {
    let mut names = simple(&state(None)).repos;
    names.sort();
    assert_eq!(names, vec![s("lib"), s("tool")]);
}

#[test]
fn basic_password_wins_over_fallback() {
    let t = GithubToken::resolve(Some((s("user"), Some(s("secret")))), &Some(s("fallback")));
    assert_eq!(t.0, Some(s("secret")));
}

#[test]
fn fallback_used_without_password() {
    let t = GithubToken::resolve(Some((s("user"), None)), &Some(s("fallback")));
    assert_eq!(t.0, Some(s("fallback")));
    let t = GithubToken::resolve(None, &Some(s("fallback")));
    assert_eq!(t.0, Some(s("fallback")));
}

#[test]
fn no_credential_at_all() {
    let t = GithubToken::resolve(None, &None);
    assert_eq!(t.0, None);
    let t = GithubToken::resolve(Some((s("user"), None)), &None);
    assert_eq!(t.0, None);
}

#[test]
fn undecodable_basic_auth_falls_through() {
    // A header that could not be decoded reaches the resolver as `None`.
    let t = GithubToken::resolve(None, &Some(s("fallback")));
    assert_eq!(t.0, Some(s("fallback")));
}

#[test]
fn client_headers_with_token() {
    let c = GithubClient::new(Some(s("abc")));
    assert_eq!(
        pairs(c.headers()),
        vec![
            ("user-agent", "pigi"),
            ("authorization", "token abc"),
            ("x-github-api-version", "2022-11-28"),
            ("accept", "application/vnd.github+json"),
        ]
    );
}

#[test]
fn client_headers_without_token() {
    let c = GithubClient::new(None);
    assert_eq!(
        pairs(c.headers()),
        vec![
            ("user-agent", "pigi"),
            ("x-github-api-version", "2022-11-28"),
            ("accept", "application/vnd.github+json"),
        ]
    );
}

#[test]
fn releases_request_url() {
    let c = GithubClient::new(None);
    let r = c.releases_request(&s("acme"), &s("tool-rs"));
    assert_eq!(r.url, "https://api.github.com/repos/acme/tool-rs/releases");
    assert_eq!(pairs(&r.headers), pairs(c.headers()));
}

#[test]
fn asset_request_asks_for_raw_bytes() {
    let c = GithubClient::new(Some(s("abc")));
    let r = c.asset_request(&s("acme"), &s("tool-rs"), &s("42"));
    assert_eq!(r.url, "https://api.github.com/repos/acme/tool-rs/releases/assets/42");
    assert_eq!(
        pairs(&r.headers),
        vec![
            ("user-agent", "pigi"),
            ("authorization", "token abc"),
            ("x-github-api-version", "2022-11-28"),
            ("accept", "application/octet-stream"),
        ]
    );
}

#[test]
fn assets_flattened_in_order() {
    let releases = vec![
        Release { assets: vec![asset(1, "A"), asset(2, "B")] },
        Release { assets: vec![asset(3, "C")] },
    ];
    let out = assets_of_releases(&releases);
    let got: Vec<(u64, &str)> = out.iter().map(|a| (a.id, a.name.as_str())).collect();
    assert_eq!(got, vec![(1, "A"), (2, "B"), (3, "C")]);
}

#[test]
fn assets_of_empty_releases() {
    let releases = vec![Release { assets: vec![] }, Release { assets: vec![asset(9, "z")] }];
    assert_eq!(assets_of_releases(&releases).len(), 1);
    assert!(assets_of_releases(&vec![]).is_empty());
}

#[test]
fn success_statuses() {
    assert!(is_success(200));
    assert!(is_success(299));
    assert!(!is_success(199));
    assert!(!is_success(300));
    assert!(!is_success(404));
}

#[test]
fn reply_outcomes() {
    assert_eq!(accept_reply(Reply::Answered { status: 200, body: Some(7) }).ok(), Some(7));
    let failures: Vec<Reply<u8>> = vec![
        Reply::Unreachable,
        Reply::Answered { status: 500, body: Some(7) },
        Reply::Answered { status: 404, body: None },
        Reply::Answered { status: 200, body: None },
    ];
    for f in failures {
        match accept_reply(f) {
            Err(e) => assert_eq!(e.into_response(), (500, s("Error during http request"))),
            Ok(_) => panic!("a failure was accepted"),
        }
    }
}

#[test]
fn error_responses() {
    assert_eq!(ErrorResponse::PageNotFound.into_response(), (404, s("Page not found")));
    assert_eq!(
        ErrorResponse::ServerError(None).into_response(),
        (500, s("Internal server error"))
    );
    assert_eq!(
        ErrorResponse::upstream_failure().into_response(),
        (500, s("Error during http request"))
    );
}

#[test]
fn config_defaults() {
    let c = Config::from_values(None, None, None).ok().unwrap();
    assert_eq!(c.port, 8000);
    assert_eq!(c.repos_config_path, "repos.json");
    assert_eq!(c.github_token, None);
}

#[test]
fn config_given_values() {
    let c = Config::from_values(Some(s("8080")), Some(s("conf.json")), Some(s("t")))
        .ok()
        .unwrap();
    assert_eq!(c.port, 8080);
    assert_eq!(c.repos_config_path, "conf.json");
    assert_eq!(c.github_token, Some(s("t")));
    assert_eq!(Config::from_values(Some(s("+65535")), None, None).ok().unwrap().port, 65535);
    assert_eq!(Config::from_values(Some(s("0")), None, None).ok().unwrap().port, 0);
}

#[test]
fn config_rejects_bad_port() {
    for bad in ["", "+", "65536", "-1", " 80", "80a", "abc"] {
        assert!(matches!(
            Config::from_values(Some(s(bad)), None, None),
            Err(ConfigError::InvalidPort)
        ));
    }
}

#[test]
fn unknown_package_is_not_found() {
    let st = state(Some("fallback"));
    for name in ["nope", "Tool", ""] {
        assert!(matches!(
            plan_package(&st, &s(name), None),
            Err(ErrorResponse::PageNotFound)
        ));
        for id in ["1", "abc", ""] {
            assert!(matches!(
                plan_asset(&st, &s(name), &s(id), Some((s("u"), Some(s("p"))))),
                Err(ErrorResponse::PageNotFound)
            ));
        }
    }
}

#[test]
fn package_plan_uses_basic_password() {
    let st = state(Some("fallback"));
    let plan = plan_package(&st, &s("tool"), Some((s("u"), Some(s("pw")))))
        .ok()
        .unwrap();
    assert_eq!(plan.github_org, "acme");
    assert_eq!(plan.request.url, "https://api.github.com/repos/acme/tool-rs/releases");
    assert_eq!(auth_of(&plan.request.headers), Some(s("token pw")));
}

#[test]
fn package_plan_uses_fallback() {
    let st = state(Some("fallback"));
    let plan = plan_package(&st, &s("lib"), None).ok().unwrap();
    assert_eq!(auth_of(&plan.request.headers), Some(s("token fallback")));
}

#[test]
fn package_plan_without_credential() {
    let st = state(None);
    let plan = plan_package(&st, &s("lib"), Some((s("u"), None))).ok().unwrap();
    assert_eq!(auth_of(&plan.request.headers), None);
}

#[test]
fn asset_plan_targets_asset_by_id() {
    let st = state(None);
    let req = plan_asset(&st, &s("tool"), &s("1234"), None).ok().unwrap();
    assert_eq!(req.url, "https://api.github.com/repos/acme/tool-rs/releases/assets/1234");
    assert_eq!(auth_of(&req.headers), None);
    let st = state(Some("fb"));
    let req = plan_asset(&st, &s("tool"), &s("1"), None).ok().unwrap();
    assert_eq!(auth_of(&req.headers), Some(s("token fb")));
}

#[test]
fn package_listing_from_releases() {
    let reply = Reply::Answered {
        status: 200,
        body: Some(vec![
            Release { assets: vec![asset(1, "a.whl"), asset(2, "b.whl")] },
            Release { assets: vec![asset(3, "c.tar.gz")] },
        ]),
    };
    let page = package(s("tool"), s("acme"), reply).ok().unwrap();
    assert_eq!(page.package_name, "tool");
    assert_eq!(page.github_org, "acme");
    let ids: Vec<u64> = page.assets.iter().map(|a| a.id).collect();
    assert_eq!(ids, vec![1, 2, 3]);
}

#[test]
fn package_listing_upstream_failure() {
    for reply in [
        Reply::Unreachable,
        Reply::Answered { status: 502, body: None },
        Reply::Answered { status: 200, body: None },
    ] {
        match package(s("tool"), s("acme"), reply) {
            Err(e) => assert_eq!(e.into_response().0, 500),
            Ok(_) => panic!("a failure was accepted"),
        }
    }
}

#[test]
fn redirects_add_trailing_slash() {
    assert_eq!(index_redirect(), "/simple/");
    assert_eq!(package_redirect(&s("tool")), "/simple/tool/");
}
