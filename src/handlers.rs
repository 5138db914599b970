//! The three request handlers, and the redirects to their canonical paths.
//!
//! Each handler that talks to the hosting API is split in two: a plan,
//! which looks the package up and builds the upstream request, and a
//! completion, which turns what came back into the response.

use crate::config::Config;
use crate::credential::{chosen_credential, GithubToken};
use crate::error::{response_of, ErrorResponse};
use crate::registry::{Repositories, Repository};
use crate::upstream::{
    accept_reply,
    asset_url,
    assets_of_releases,
    default_headers,
    flat_assets,
    headers_view,
    releases_url,
    success,
    with_header,
    Asset,
    GithubClient,
    Release,
    Reply,
    UpstreamRequest,
};
use vstd::prelude::*;

verus! {

/// The context shared by all requests, built once at startup.
pub struct AppState {
    pub config: Config,
    pub repos: Repositories,
}

/// The canonical path of the index.
pub open spec fn index_path() -> Seq<char> {
    "/simple/"@
}

/// The canonical path of the listing of package `name`.
pub open spec fn package_path(name: Seq<char>) -> Seq<char> {
    "/simple/"@ + name + "/"@
}

/// The credential that a request with Basic authentication `basic` uses.
pub open spec fn request_credential(
    state: &AppState,
    basic: Option<(String, Option<String>)>,
) -> Option<Seq<char>> {
    chosen_credential(basic.deep_view(), state.config.github_token.deep_view())
}

/// The repository of `package_name`, or `PageNotFound`.
pub fn get_repository<'a>(package_name: &String, app_state: &'a AppState) -> (r: Result<
    &'a Repository,
    ErrorResponse,
>)
    ensures
        r is Ok <==> app_state.repos@.contains_key(package_name@),
        r matches Ok(x) ==> x@ == app_state.repos@[package_name@],
        r matches Err(e) ==> e == ErrorResponse::PageNotFound,
{
    match app_state.repos.get(package_name) {
        Some(repo) => Ok(repo),
        None => Err(ErrorResponse::PageNotFound),
    }
}

/// The index page: the names of all packages.
pub struct Simple {
    pub repos: Vec<String>,
}

/// The index: every package of the registry, once.
pub fn simple(app_state: &AppState) -> (r: Simple)
    ensures
        r.repos@.map_values(|s: String| s@).to_set() == app_state.repos@.dom(),
        r.repos@.map_values(|s: String| s@).no_duplicates(),
{
    Simple { repos: app_state.repos.all() }
}

/// The listing page of one package: its artifacts.
pub struct PackageTemplate {
    pub github_org: String,
    pub package_name: String,
    pub assets: Vec<Asset>,
}

/// What the listing of a package needs once its repository is known: the
/// owner, for the page, and the request that lists the releases.
pub struct PackagePlan {
    pub github_org: String,
    pub request: UpstreamRequest,
}

/// The first half of the package listing: look the package up, then build
/// the request for its releases with the request's credential.
pub fn plan_package(
    app_state: &AppState,
    package_name: &String,
    basic: Option<(String, Option<String>)>,
) -> (r: Result<PackagePlan, ErrorResponse>)
    ensures
        r is Err <==> !app_state.repos@.contains_key(package_name@),
        r matches Err(e) ==> e == ErrorResponse::PageNotFound && response_of(e).0 == 404,
        r matches Ok(p) ==> {
            let repo = app_state.repos@[package_name@];
            &&& p.github_org@ == repo.0
            &&& p.request.url@ == releases_url(repo.0, repo.1)
            &&& headers_view(p.request.headers@) == default_headers(
                request_credential(app_state, basic),
            )
        },
{
    let repository = get_repository(package_name, app_state)?;
    let GithubToken(token) = GithubToken::resolve(basic, &app_state.config.github_token);
    let client = GithubClient::new(token);
    let request = client.releases_request(repository.owner(), repository.name());
    Ok(PackagePlan { github_org: repository.owner().clone(), request })
}

/// The second half of the package listing: the artifacts of all releases
/// in the hosting API's order, or a server error where the API failed.
pub fn package(package_name: String, github_org: String, reply: Reply<Vec<Release>>) -> (r:
    Result<PackageTemplate, ErrorResponse>)
    ensures
        r is Ok <==> (reply matches Reply::Answered { status, body } && success(status)
            && body is Some),
        r matches Ok(t) ==> {
            &&& reply matches Reply::Answered { body: Some(releases), .. }
            &&& t.assets@.map_values(|a: Asset| a@) == flat_assets(releases@)
            &&& t.package_name@ == package_name@
            &&& t.github_org@ == github_org@
        },
        r matches Err(e) ==> e.is_upstream_failure() && response_of(e).0 == 500,
{
    let releases = accept_reply(reply)?;
    let assets = assets_of_releases(&releases);
    Ok(PackageTemplate { github_org, package_name, assets })
}

/// The first half of asset streaming: look the package up, then build the
/// request for the asset's bytes with the request's credential. The asset
/// is found by its id alone; its file name plays no part.
pub fn plan_asset(
    app_state: &AppState,
    package_name: &String,
    asset_id: &String,
    basic: Option<(String, Option<String>)>,
) -> (r: Result<UpstreamRequest, ErrorResponse>)
    ensures
        r is Err <==> !app_state.repos@.contains_key(package_name@),
        r matches Err(e) ==> e == ErrorResponse::PageNotFound && response_of(e).0 == 404,
        r matches Ok(q) ==> {
            let repo = app_state.repos@[package_name@];
            &&& q.url@ == asset_url(repo.0, repo.1, asset_id@)
            &&& headers_view(q.headers@) == with_header(
                default_headers(request_credential(app_state, basic)),
                "accept"@,
                "application/octet-stream"@,
            )
        },
{
    let repository = get_repository(package_name, app_state)?;
    let GithubToken(token) = GithubToken::resolve(basic, &app_state.config.github_token);
    let client = GithubClient::new(token);
    Ok(client.asset_request(repository.owner(), repository.name(), asset_id))
}

/// Where a request for the index without its trailing slash is sent.
pub fn index_redirect() -> (r: String)
    ensures
        r@ == index_path(),
{
    String::from_str("/simple/")
}

/// Where a request for the listing of `package_name` without its trailing
/// slash is sent.
pub fn package_redirect(package_name: &String) -> (r: String)
    ensures
        r@ == package_path(package_name@),
{
    let mut r = String::from_str("/simple/");
    r.append(package_name.as_str());
    r.append("/");
    r
}

} // verus!
