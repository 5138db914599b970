//! The requests made to the hosting API, and what is made of its answers.

use crate::error::{response_of, ErrorResponse};
use vstd::prelude::*;

verus! {

/// A header to the contracts: its name, in lower case, and its value.
pub type HeaderView = (Seq<char>, Seq<char>);

/// An artifact to the contracts: its id and its file name.
pub type AssetView = (u64, Seq<char>);

/// The headers sent with every request to the hosting API: who calls, the
/// version of the API, the representation asked for, and the credential
/// only where there is one.
pub open spec fn default_headers(token: Option<Seq<char>>) -> Seq<HeaderView> {
    let auth = match token {
        Some(t) => seq![("authorization"@, "token "@ + t)],
        None => Seq::empty(),
    };
    seq![("user-agent"@, "pigi"@)] + auth + seq![
        ("x-github-api-version"@, "2022-11-28"@),
        ("accept"@, "application/vnd.github+json"@),
    ]
}

/// `hs` with the value of each header called `name` replaced by `value`.
pub open spec fn with_header(hs: Seq<HeaderView>, name: Seq<char>, value: Seq<char>) -> Seq<
    HeaderView,
> {
    hs.map_values(|h: HeaderView| if h.0 == name { (name, value) } else { h })
}

/// The headers as the contracts see them.
pub open spec fn headers_view(hs: Seq<(String, String)>) -> Seq<HeaderView> {
    hs.map_values(|h: (String, String)| (h.0@, h.1@))
}

/// The endpoint that lists the releases of `owner/repo`.
pub open spec fn releases_url(owner: Seq<char>, repo: Seq<char>) -> Seq<char> {
    "https://api.github.com/repos/"@ + owner + "/"@ + repo + "/releases"@
}

/// The endpoint that downloads asset `id` of `owner/repo`.
pub open spec fn asset_url(owner: Seq<char>, repo: Seq<char>, id: Seq<char>) -> Seq<char> {
    "https://api.github.com/repos/"@ + owner + "/"@ + repo + "/releases/assets/"@ + id
}

/// One downloadable file of a release.
pub struct Asset {
    pub id: u64,
    pub name: String,
}

impl View for Asset {
    type V = AssetView;

    open spec fn view(&self) -> AssetView {
        (self.id, self.name@)
    }
}

/// One release of a repository, with its assets in the hosting API's order.
pub struct Release {
    pub assets: Vec<Asset>,
}

impl View for Release {
    type V = Seq<AssetView>;

    open spec fn view(&self) -> Seq<AssetView> {
        self.assets@.map_values(|a: Asset| a@)
    }
}

/// The assets of all releases, one release after the other, each in its own
/// order.
pub open spec fn flat_assets(releases: Seq<Release>) -> Seq<AssetView> {
    releases.map_values(|r: Release| r@).flatten()
}

/// A request to the hosting API: where it goes and the headers it carries.
pub struct UpstreamRequest {
    pub url: String,
    pub headers: Vec<(String, String)>,
}

/// What came of a request to the hosting API.
pub enum Reply<T> {
    /// No answer: the connection or the transfer failed.
    Unreachable,
    /// An answer with this status; `body` is `None` where it could not be read.
    Answered { status: u16, body: Option<T> },
}

/// A status that counts as success.
pub open spec fn success(status: u16) -> bool {
    200 <= status < 300
}

/// Whether `status` counts as success.
pub fn is_success(status: u16) -> (r: bool)
    ensures
        r == success(status),
{
    200 <= status && status < 300
}

/// The body of a successful answer; any other outcome, whatever its cause,
/// is a server error.
pub fn accept_reply<T>(reply: Reply<T>) -> (r: Result<T, ErrorResponse>)
    ensures
        r is Ok <==> (reply matches Reply::Answered { status, body } && success(status)
            && body is Some),
        r matches Ok(t) ==> reply matches Reply::Answered { body: Some(b), .. } && t == b,
        r matches Err(e) ==> e.is_upstream_failure() && response_of(e).0 == 500,
{
    match reply {
        Reply::Answered { status, body: Some(b) } => {
            if is_success(status) {
                Ok(b)
            } else {
                Err(ErrorResponse::upstream_failure())
            }
        },
        _ => Err(ErrorResponse::upstream_failure()),
    }
}

/// Builds a string from two parts.
fn join2(a: &str, b: &str) -> (r: String)
    ensures
        r@ == a@ + b@,
{
    let mut r = String::from_str(a);
    r.append(b);
    r
}

/// The header `(name, value)`.
fn header(name: &str, value: String) -> (r: (String, String))
    ensures
        r.0@ == name@,
        r.1@ == value@,
{
    (String::from_str(name), value)
}

/// The assets of all releases, flattened in order.
pub fn assets_of_releases(releases: &Vec<Release>) -> (r: Vec<Asset>)
    ensures
        r@.map_values(|a: Asset| a@) == flat_assets(releases@),
{
    let mut r: Vec<Asset> = Vec::new();
    let mut i: usize = 0;
    while i < releases.len()
        invariant
            0 <= i <= releases@.len(),
            r@.map_values(|a: Asset| a@) == flat_assets(releases@.take(i as int)),
        decreases releases@.len() - i,
    {
        let release = &releases[i];
        let ghost start = r@.map_values(|a: Asset| a@);
        let mut j: usize = 0;
        while j < release.assets.len()
            invariant
                0 <= j <= release.assets@.len(),
                r@.map_values(|a: Asset| a@) == start + release@.take(j as int),
            decreases release.assets@.len() - j,
        {
            let a = &release.assets[j];
            let ghost prev = r@;
            r.push(Asset { id: a.id, name: a.name.clone() });
            proof {
                assert(r@.map_values(|a: Asset| a@) =~= prev.map_values(|a: Asset| a@).push(
                    release@[j as int],
                ));
                assert(release@.take(j + 1) =~= release@.take(j as int).push(release@[j as int]));
                assert(r@.map_values(|a: Asset| a@) =~= start + release@.take(j + 1));
            }
            j = j + 1;
        }
        proof {
            assert(release@.take(j as int) =~= release@);
            let rs = releases@.take(i as int);
            assert(releases@.take(i + 1) =~= rs.push(releases@[i as int]));
            assert(releases@.take(i + 1).map_values(|r: Release| r@) =~= rs.map_values(
                |r: Release| r@,
            ).push(release@));
            rs.map_values(|r: Release| r@).lemma_flatten_push(release@);
        }
        i = i + 1;
    }
    assert(releases@.take(i as int) =~= releases@);
    r
}

/// A client of the hosting API for one request: the headers it sends.
pub struct GithubClient {
    headers: Vec<(String, String)>,
}

impl GithubClient {
    /// The headers sent with every request of this client.
    pub closed spec fn headers_spec(&self) -> Seq<HeaderView> {
        headers_view(self.headers@)
    }

    /// A client that presents `token`, if any.
    pub fn new(token: Option<String>) -> (r: GithubClient)
        ensures
            r.headers_spec() == default_headers(token.deep_view()),
    {
        let mut headers: Vec<(String, String)> = Vec::new();
        headers.push(header("user-agent", String::from_str("pigi")));
        if let Some(t) = token {
            headers.push(header("authorization", join2("token ", t.as_str())));
        }
        headers.push(header("x-github-api-version", String::from_str("2022-11-28")));
        headers.push(header("accept", String::from_str("application/vnd.github+json")));
        let r = GithubClient { headers };
        assert(r.headers_spec() =~= default_headers(token.deep_view()));
        r
    }

    /// The headers sent with every request of this client.
    pub fn headers(&self) -> (r: &Vec<(String, String)>)
        ensures
            headers_view(r@) == self.headers_spec(),
    {
        &self.headers
    }

    /// The request that lists the releases of `org/repo`.
    pub fn releases_request(&self, org: &String, repo: &String) -> (r: UpstreamRequest)
        ensures
            r.url@ == releases_url(org@, repo@),
            headers_view(r.headers@) == self.headers_spec(),
    {
        let mut url = String::from_str("https://api.github.com/repos/");
        url.append(org.as_str());
        url.append("/");
        url.append(repo.as_str());
        url.append("/releases");
        UpstreamRequest { url, headers: copy_headers(&self.headers) }
    }

    /// The request that downloads asset `asset_id` of `org/repo`: it asks
    /// for the raw bytes, not for the asset's description.
    pub fn asset_request(&self, org: &String, repo: &String, asset_id: &String) -> (r:
        UpstreamRequest)
        ensures
            r.url@ == asset_url(org@, repo@, asset_id@),
            headers_view(r.headers@) == with_header(
                self.headers_spec(),
                "accept"@,
                "application/octet-stream"@,
            ),
    {
        let mut url = String::from_str("https://api.github.com/repos/");
        url.append(org.as_str());
        url.append("/");
        url.append(repo.as_str());
        url.append("/releases/assets/");
        url.append(asset_id.as_str());
        let headers = set_header(
            &self.headers,
            &String::from_str("accept"),
            &String::from_str("application/octet-stream"),
        );
        UpstreamRequest { url, headers }
    }
}

/// A copy of `hs`.
fn copy_headers(hs: &Vec<(String, String)>) -> (r: Vec<(String, String)>)
    ensures
        headers_view(r@) == headers_view(hs@),
{
    let mut r: Vec<(String, String)> = Vec::new();
    let mut i: usize = 0;
    while i < hs.len()
        invariant
            0 <= i <= hs@.len(),
            headers_view(r@) == headers_view(hs@).take(i as int),
        decreases hs@.len() - i,
    {
        let ghost prev = r@;
        r.push((hs[i].0.clone(), hs[i].1.clone()));
        proof {
            assert(headers_view(r@) =~= headers_view(prev).push(headers_view(hs@)[i as int]));
            assert(headers_view(r@) =~= headers_view(hs@).take(i + 1));
        }
        i = i + 1;
    }
    assert(headers_view(hs@).take(i as int) =~= headers_view(hs@));
    r
}

/// `hs` with the value of each header called `name` replaced by `value`.
fn set_header(hs: &Vec<(String, String)>, name: &String, value: &String) -> (r: Vec<(String, String)>)
    ensures
        headers_view(r@) == with_header(headers_view(hs@), name@, value@),
{
    let ghost target = with_header(headers_view(hs@), name@, value@);
    let mut r: Vec<(String, String)> = Vec::new();
    let mut i: usize = 0;
    while i < hs.len()
        invariant
            0 <= i <= hs@.len(),
            target.len() == hs@.len(),
            target == with_header(headers_view(hs@), name@, value@),
            headers_view(r@) == target.take(i as int),
        decreases hs@.len() - i,
    {
        let ghost prev = r@;
        if hs[i].0 == *name {
            r.push((name.clone(), value.clone()));
        } else {
            r.push((hs[i].0.clone(), hs[i].1.clone()));
        }
        proof {
            assert(headers_view(r@) =~= headers_view(prev).push(target[i as int]));
        }
        i = i + 1;
    }
    assert(target.take(i as int) =~= target);
    r
}

} // verus!
