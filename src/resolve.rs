use vstd::prelude::*;
use crate::error::SuivmError;
use crate::text::{contains_text, names_view, same_text};

verus! {

/// The alias that names the newest release.
pub open spec fn latest_alias() -> Seq<char> {
    seq!['l', 'a', 't', 'e', 's', 't']
}

/// The release list as the resolver sees it: `None` when it could not be fetched.
pub open spec fn releases_model(releases: Result<Vec<String>, SuivmError>) -> Option<
    Seq<Seq<char>>,
> {
    match releases {
        Ok(v) => Some(names_view(v@)),
        Err(_) => None,
    }
}

/// The outcome of the release-list step of resolution.
#[derive(Debug, Clone, PartialEq, Eq)]
pub enum Resolution {
    /// The identifier resolves to this version.
    Resolved(String),
    /// The identifier is no release: it must be looked up as a branch or commit.
    NeedsCommit,
}

/// What the release-list step decides: `None` when resolution fails,
/// `Some(None)` when a commit lookup is needed, `Some(Some(v))` when the
/// identifier resolves to `v`.
pub open spec fn release_step(id: Seq<char>, releases: Option<Seq<Seq<char>>>) -> Option<
    Option<Seq<char>>,
> {
    if id == latest_alias() {
        match releases {
            Some(rs) => if rs.len() > 0 {
                Some(Some(rs.last()))
            } else {
                None
            },
            None => None,
        }
    } else if releases is Some && releases->0.contains(id) {
        Some(Some(id))
    } else {
        Some(None)
    }
}

/// The model of a release-list step's outcome.
pub open spec fn resolution_model(r: Result<Resolution, SuivmError>) -> Option<Option<Seq<char>>> {
    match r {
        Ok(Resolution::Resolved(v)) => Some(Some(v@)),
        Ok(Resolution::NeedsCommit) => Some(None),
        Err(_) => None,
    }
}

/// The version an identifier resolves to, given the release list (oldest
/// first, `None` when it could not be fetched) and the commit that the
/// identifier names upstream (`None` when it names none).
pub open spec fn resolve_spec(
    id: Seq<char>,
    releases: Option<Seq<Seq<char>>>,
    commit: Option<Seq<char>>,
) -> Option<Seq<char>> {
    match release_step(id, releases) {
        Some(Some(v)) => Some(v),
        Some(None) => commit,
        None => None,
    }
}

/// The release list in oldest-to-newest order, from the tags in the order in
/// which the release index lists them, newest first.
pub fn fetch_versions(tags_newest_first: Vec<String>) -> (r: Vec<String>)
    ensures
        r@ == tags_newest_first@.reverse(),
{
    let mut out: Vec<String> = Vec::new();
    let mut rest = tags_newest_first;
    while rest.len() > 0
        invariant
            out@ + rest@.reverse() == tags_newest_first@.reverse(),
        decreases rest@.len(),
    {
        let ghost before = rest@;
        let tag = rest.pop().unwrap();
        proof {
            assert(before == rest@.push(tag));
            assert(before.reverse() =~= seq![tag] + rest@.reverse());
            assert(out@.push(tag) + rest@.reverse() =~= out@ + before.reverse());
        }
        out.push(tag);
    }
    assert(rest@.reverse() =~= Seq::<String>::empty());
    assert(out@ =~= out@ + rest@.reverse());
    out
}

/// The newest release of a list ordered oldest first.
pub fn fetch_latest_version(releases: &Vec<String>) -> (r: Result<String, SuivmError>)
    ensures
        releases@.len() == 0 ==> r == Err::<String, SuivmError>(SuivmError::NotFound),
        releases@.len() > 0 ==> r == Ok::<String, SuivmError>(releases@.last()),
{
    let n = releases.len();
    if n == 0 {
        Err(SuivmError::NotFound)
    } else {
        Ok(releases[n - 1].clone())
    }
}

/// An identifier with the `latest` alias replaced by the newest release.
pub fn handle_alias(alias: &String, releases: Result<Vec<String>, SuivmError>) -> (r: Result<
    String,
    SuivmError,
>)
    ensures
        alias@ != latest_alias() ==> r == Ok::<String, SuivmError>(*alias),
        alias@ == latest_alias() ==> match releases {
            Ok(v) => if v@.len() > 0 {
                r == Ok::<String, SuivmError>(v@.last())
            } else {
                r == Err::<String, SuivmError>(SuivmError::NotFound)
            },
            Err(e) => r == Err::<String, SuivmError>(e),
        },
{
    proof {
        reveal_strlit("latest");
        assert("latest"@ =~= latest_alias());
    }
    if same_text(alias.as_str(), "latest") {
        match releases {
            Ok(v) => fetch_latest_version(&v),
            Err(e) => Err(e),
        }
    } else {
        Ok(alias.clone())
    }
}

/// The release-list step of resolution. `latest` resolves to the newest
/// release, and fails when the list is empty or could not be fetched. Any
/// other identifier that the list holds resolves to itself; one that it does
/// not hold, or any identifier when the list could not be fetched, needs a
/// commit lookup.
pub fn resolve_with_releases(
    identifier: &String,
    releases: Result<Vec<String>, SuivmError>,
) -> (r: Result<Resolution, SuivmError>)
    ensures
        resolution_model(r) == release_step(identifier@, releases_model(releases)),
        identifier@ == latest_alias() ==> match releases {
            Ok(v) => if v@.len() > 0 {
                r == Ok::<Resolution, SuivmError>(Resolution::Resolved(v@.last()))
            } else {
                r == Err::<Resolution, SuivmError>(SuivmError::NotFound)
            },
            Err(e) => r == Err::<Resolution, SuivmError>(e),
        },
        identifier@ != latest_alias() && releases is Ok && names_view(releases->Ok_0@).contains(
            identifier@,
        ) ==> r == Ok::<Resolution, SuivmError>(Resolution::Resolved(*identifier)),
        identifier@ != latest_alias() && !(releases is Ok && names_view(
            releases->Ok_0@,
        ).contains(identifier@)) ==> r == Ok::<Resolution, SuivmError>(Resolution::NeedsCommit),
{
    proof {
        reveal_strlit("latest");
        assert("latest"@ =~= latest_alias());
    }
    if same_text(identifier.as_str(), "latest") {
        match handle_alias(identifier, releases) {
            Ok(v) => Ok(Resolution::Resolved(v)),
            Err(e) => Err(e),
        }
    } else {
        match releases {
            Ok(v) => {
                if contains_text(&v, identifier) {
                    Ok(Resolution::Resolved(identifier.clone()))
                } else {
                    Ok(Resolution::NeedsCommit)
                }
            },
            Err(_) => Ok(Resolution::NeedsCommit),
        }
    }
}

/// The commit step of resolution: the commit that the identifier names
/// upstream, or `Unresolvable` when the lookup found none.
pub fn resolve_with_commit(identifier: &String, commit: Result<String, SuivmError>) -> (r: Result<
    String,
    SuivmError,
>)
    ensures
        match commit {
            Ok(sha) => r == Ok::<String, SuivmError>(sha),
            Err(_) => r == Err::<String, SuivmError>(SuivmError::Unresolvable(*identifier)),
        },
{
    match commit {
        Ok(sha) => Ok(sha),
        Err(_) => Err(SuivmError::Unresolvable(identifier.clone())),
    }
}

/// `latest` resolves to the last release of a non-empty list ordered oldest
/// first.
pub proof fn law_latest_is_newest(releases: Seq<Seq<char>>, commit: Option<Seq<char>>)
    requires
        releases.len() > 0,
    ensures
        resolve_spec(latest_alias(), Some(releases), commit) == Some(releases.last()),
{
}

/// An identifier other than `latest` that the release list holds resolves to
/// itself, and its resolution needs no commit lookup.
pub proof fn law_listed_identifier_is_kept(
    id: Seq<char>,
    releases: Seq<Seq<char>>,
    commit: Option<Seq<char>>,
)
    requires
        releases.contains(id),
        id != latest_alias(),
    ensures
        release_step(id, Some(releases)) == Some(Some(id)),
        resolve_spec(id, Some(releases), commit) == Some(id),
{
}

/// An identifier other than `latest` that the release list does not hold
/// resolves to the commit that the commit lookup returns for it.
pub proof fn law_unlisted_identifier_is_commit(
    id: Seq<char>,
    releases: Seq<Seq<char>>,
    sha: Seq<char>,
)
    requires
        !releases.contains(id),
        id != latest_alias(),
    ensures
        release_step(id, Some(releases)) == Some(None::<Seq<char>>),
        resolve_spec(id, Some(releases), Some(sha)) == Some(sha),
{
}

} // verus!
