//! Properties that hold across the functions of the library.

use crate::credential::chosen_credential;
use crate::credential::BasicView;
use crate::handlers::{index_path, package_path};
use crate::upstream::{default_headers, with_header, AssetView, HeaderView};
use vstd::prelude::*;
use vstd::seq_lib::lemma_flatten_concat;

verus! {

/// A package listing is the releases' assets one release after the other:
/// asset `j` of release `i` stands right after all assets of the releases
/// before `i`.
pub proof fn law_listing_keeps_order(releases: Seq<Seq<AssetView>>, i: int, j: int)
    requires
        0 <= i < releases.len(),
        0 <= j < releases[i].len(),
    ensures
        releases.take(i).flatten().len() + j < releases.flatten().len(),
        releases.flatten()[releases.take(i).flatten().len() + j] == releases[i][j],
{
    let pre = releases.take(i);
    let rest = releases.skip(i);
    assert(releases =~= pre + rest);
    lemma_flatten_concat(pre, rest);
    assert(rest.first() == releases[i]);
    assert(rest.flatten() == rest.first() + rest.drop_first().flatten());
}

/// The redirects only add the trailing slash: the path without it leads to
/// the canonical path with it, for the index and for every package.
pub proof fn law_redirect_adds_slash(name: Seq<char>)
    ensures
        index_path() == "/simple"@.push('/'),
        package_path(name) == ("/simple/"@ + name).push('/'),
        package_path(name).last() == '/',
{
    reveal_strlit("/simple/");
    reveal_strlit("/simple");
    reveal_strlit("/");
    assert(index_path() =~= "/simple"@.push('/'));
    assert(package_path(name) =~= ("/simple/"@ + name).push('/'));
}

/// Whether the request's Basic authentication carries a password.
pub open spec fn has_password(basic: Option<BasicView>) -> bool {
    basic matches Some((_, Some(_)))
}

/// Whether `hs` holds the header `(name, value)`.
pub open spec fn has_header(hs: Seq<HeaderView>, name: Seq<char>, value: Seq<char>) -> bool {
    exists|i: int| 0 <= i < hs.len() && hs[i] == (name, value)
}

/// Whether `hs` holds a header called `name`.
pub open spec fn has_header_named(hs: Seq<HeaderView>, name: Seq<char>) -> bool {
    exists|i: int| 0 <= i < hs.len() && #[trigger] hs[i].0 == name
}

/// Which credential the hosting API sees, for a listing and for a download
/// alike: the request's Basic password where there is one, else the
/// fallback where there is one, else no authorization header at all.
pub proof fn law_credential_precedence(basic: Option<BasicView>, fallback: Option<Seq<char>>)
    ensures
        ({
            let listing = default_headers(chosen_credential(basic, fallback));
            let download = with_header(listing, "accept"@, "application/octet-stream"@);
            &&& basic matches Some((_, Some(p))) ==> has_header(
                listing,
                "authorization"@,
                "token "@ + p,
            ) && has_header(download, "authorization"@, "token "@ + p)
            &&& !has_password(basic) && fallback is Some ==> has_header(
                listing,
                "authorization"@,
                "token "@ + fallback->Some_0,
            ) && has_header(download, "authorization"@, "token "@ + fallback->Some_0)
            &&& !has_password(basic) && fallback is None ==> !has_header_named(
                listing,
                "authorization"@,
            ) && !has_header_named(download, "authorization"@)
        }),
{
    reveal_strlit("authorization");
    reveal_strlit("accept");
    reveal_strlit("user-agent");
    reveal_strlit("x-github-api-version");
    let c = chosen_credential(basic, fallback);
    let listing = default_headers(c);
    let download = with_header(listing, "accept"@, "application/octet-stream"@);
    assert("authorization"@.len() != "accept"@.len());
    match c {
        Some(t) => {
            assert(listing[1] == ("authorization"@, "token "@ + t));
            assert(download[1] == listing[1]);
        },
        None => {
            assert(listing.len() == 3);
            assert forall|i: int| 0 <= i < listing.len() implies #[trigger] listing[i].0
                != "authorization"@ by {
                assert(listing[i].0.len() != "authorization"@.len());
            }
            assert forall|i: int| 0 <= i < download.len() implies #[trigger] download[i].0
                != "authorization"@ by {
                assert(listing[i].0.len() != "authorization"@.len());
            }
        },
    }
}

} // verus!
