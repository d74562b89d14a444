//! Maps a job request (provider, owner, repository) to a canonical clone URL.
use vstd::prelude::*;

verus! {

/// The body of a job request: which repository of which provider to analyse.
#[derive(Debug)]
pub struct PostJobData {
    pub username: String,
    pub reponame: String,
    pub provider: String,
}

/// The providers that can be asked for, with the host that each stands for.
pub open spec fn provider_host(provider: Seq<char>) -> Option<Seq<char>> {
    if provider == "github"@ {
        Some("github.com"@)
    } else if provider == "gitlab"@ {
        Some("gitlab.com"@)
    } else {
        None
    }
}

/// `https://<host>/<user>/<repo>.git`
pub open spec fn clone_url(host: Seq<char>, user: Seq<char>, repo: Seq<char>) -> Seq<char> {
    "https://"@ + host + "/"@ + user + "/"@ + repo + ".git"@
}

/// The message of a request for a provider that is not supported.
pub open spec fn unsupported_provider_message(provider: Seq<char>) -> Seq<char> {
    "Service provider for git with a name '"@ + provider + "' is not supported!"@
}

/// The canonical clone URL of a request, or `None` for an unknown provider.
pub open spec fn locate(provider: Seq<char>, user: Seq<char>, repo: Seq<char>) -> Option<Seq<char>> {
    match provider_host(provider) {
        Some(host) => Some(clone_url(host, user, repo)),
        None => None,
    }
}

/// Builds the clone URL of `username/reponame` on the given provider; an
/// unknown provider is an error that names it.
pub fn expand_url(service: &String, username: &String, reponame: &String) -> (r: Result<String, String>)
    ensures
        match r {
            Ok(url) => locate(service@, username@, reponame@) == Some(url@),
            Err(msg) => locate(service@, username@, reponame@) is None
                && msg@ == unsupported_provider_message(service@),
        },
{
    let github = String::from_str("github");
    let gitlab = String::from_str("gitlab");
    let host: &str;
    if *service == github {
        host = "github.com";
    } else if *service == gitlab {
        host = "gitlab.com";
    } else {
        let mut msg = String::from_str("Service provider for git with a name '");
        msg.append(service.as_str());
        msg.append("' is not supported!");
        return Err(msg);
    }
    let mut url = String::from_str("https://");
    url.append(host);
    url.append("/");
    url.append(username.as_str());
    url.append("/");
    url.append(reponame.as_str());
    url.append(".git");
    Ok(url)
}

} // verus!
