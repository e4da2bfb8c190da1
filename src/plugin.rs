//! Plugin specifications and the download URL of each.

use crate::paths::str_eq;
use vstd::prelude::*;

verus! {

/// A git hosting service, each with its own tarball URL convention.
#[derive(Clone, Copy, Debug, PartialEq, Eq, Structural)]
pub enum GitProvider {
    GitHub,
    Bitbucket,
}

/// The message for a provider name that is not recognised.
pub open spec fn unknown_provider_message(name: Seq<char>) -> Seq<char> {
    "Git provider "@ + name + " not recognised -- try ‘github’ or ‘bitbucket’ instead"@
}

impl GitProvider {
    /// Reads a provider from its lower-case name.
    pub fn from_name(s: &str) -> (r: Result<GitProvider, String>)
        ensures
            s@ == "github"@ ==> r == Ok::<GitProvider, String>(GitProvider::GitHub),
            s@ == "bitbucket"@ ==> r == Ok::<GitProvider, String>(GitProvider::Bitbucket),
            r is Err <==> (s@ != "github"@ && s@ != "bitbucket"@),
            r is Err ==> r->Err_0@ == unknown_provider_message(s@),
    {
        proof {
            reveal_strlit("github");
            reveal_strlit("bitbucket");
            assert("github"@.len() != "bitbucket"@.len());
        }
        if str_eq(s, "github") {
            Ok(GitProvider::GitHub)
        } else if str_eq(s, "bitbucket") {
            Ok(GitProvider::Bitbucket)
        } else {
            let msg = String::from_str("Git provider ").concat(s).concat(
                " not recognised -- try ‘github’ or ‘bitbucket’ instead",
            );
            Err(msg)
        }
    }
}

impl std::str::FromStr for GitProvider {
    type Err = String;

    fn from_str(s: &str) -> Result<GitProvider, String> {
        GitProvider::from_name(s)
    }
}

/// The ref used when a repository names none.
pub open spec fn default_ref() -> Seq<char> {
    "master"@
}

/// The ref that a URL is rendered with.
pub open spec fn ref_or_default(git_ref: Option<String>) -> Seq<char> {
    match git_ref {
        Some(r) => r@,
        None => default_ref(),
    }
}

/// The tarball URL of `user/repo` at `git_ref` on `provider`.
pub open spec fn git_url_spec(
    provider: GitProvider,
    user: Seq<char>,
    repo: Seq<char>,
    git_ref: Seq<char>,
) -> Seq<char> {
    match provider {
        GitProvider::GitHub => "https://codeload.github.com/"@ + user + "/"@ + repo + "/tar.gz/"@
            + git_ref,
        GitProvider::Bitbucket => "https://bitbucket.org/"@ + user + "/"@ + repo + "/get/"@
            + git_ref + ".tar.gz"@,
    }
}

/// A plugin kept in a git repository.
#[derive(Clone, Debug, PartialEq, Eq)]
pub struct GitRepo {
    /// The hosting provider.
    pub provider: GitProvider,
    /// The repository owner's user name.
    pub user: String,
    /// The repository's name.
    pub repo: String,
    /// A branch name, tag name or commit hash; `master` when absent.
    pub git_ref: Option<String>,
}

impl GitRepo {
    pub open spec fn spec_url(&self) -> Seq<char> {
        git_url_spec(self.provider, self.user@, self.repo@, ref_or_default(self.git_ref))
    }

    /// The tarball URL of this repository.
    pub fn url(&self) -> (r: String)
        ensures
            r@ == self.spec_url(),
    {
        let git_ref: &str = match &self.git_ref {
            Some(r) => r.as_str(),
            None => "master",
        };
        match self.provider {
            GitProvider::GitHub => String::from_str("https://codeload.github.com/").concat(
                self.user.as_str(),
            ).concat("/").concat(self.repo.as_str()).concat("/tar.gz/").concat(git_ref),
            GitProvider::Bitbucket => String::from_str("https://bitbucket.org/").concat(
                self.user.as_str(),
            ).concat("/").concat(self.repo.as_str()).concat("/get/").concat(git_ref).concat(
                ".tar.gz",
            ),
        }
    }
}

/// A plugin fetched as a gzip-compressed tarball from a fixed URL.
#[derive(Clone, Debug, PartialEq, Eq)]
pub struct ArchivePlugin {
    /// The tarball's URL, used as it is.
    pub url: String,
}

impl ArchivePlugin {
    /// The tarball URL, unchanged.
    pub fn url(&self) -> (r: String)
        ensures
            r@ == self.url@,
    {
        String::from_str(self.url.as_str())
    }
}

/// One entry of the plugin list.
#[derive(Clone, Debug, PartialEq, Eq)]
pub enum Plugin {
    Git(GitRepo),
    Archive(ArchivePlugin),
}

impl Plugin {
    pub open spec fn spec_url(&self) -> Seq<char> {
        match self {
            Plugin::Git(g) => g.spec_url(),
            Plugin::Archive(a) => a.url@,
        }
    }

    /// The URL that the plugin is downloaded from.
    pub fn url(&self) -> (r: String)
        ensures
            r@ == self.spec_url(),
    {
        match self {
            Plugin::Git(g) => g.url(),
            Plugin::Archive(a) => a.url(),
        }
    }

    /// The notice given once the plugin is installed.
    pub fn success_notice(&self) -> (r: String)
        ensures
            r@ == "Installed "@ + self.spec_url(),
    {
        let u = self.url();
        String::from_str("Installed ").concat(u.as_str())
    }
}

/// Whether `t` ends with `suffix`.
pub open spec fn ends_with(t: Seq<char>, suffix: Seq<char>) -> bool {
    suffix.len() <= t.len() && t.subrange(t.len() - suffix.len(), t.len() as int) == suffix
}

/// The ref stands verbatim at the ref position of a repository's URL, and
/// is `master` when the repository names none: last on GitHub, just before
/// `.tar.gz` on Bitbucket.
pub proof fn lemma_ref_position(g: GitRepo)
    ensures
        g.git_ref is None ==> ref_or_default(g.git_ref) == "master"@,
        g.git_ref is Some ==> ref_or_default(g.git_ref) == g.git_ref->0@,
        g.provider == GitProvider::GitHub ==> ends_with(g.spec_url(), ref_or_default(g.git_ref)),
        g.provider == GitProvider::Bitbucket ==> ends_with(
            g.spec_url(),
            ref_or_default(g.git_ref) + ".tar.gz"@,
        ),
{
    let r = ref_or_default(g.git_ref);
    match g.provider {
        GitProvider::GitHub => {
            let a = "https://codeload.github.com/"@ + g.user@ + "/"@ + g.repo@ + "/tar.gz/"@;
            assert(g.spec_url() == a + r);
            assert((a + r).subrange(a.len() as int, (a + r).len() as int) =~= r);
        },
        GitProvider::Bitbucket => {
            let a = "https://bitbucket.org/"@ + g.user@ + "/"@ + g.repo@ + "/get/"@;
            let t = r + ".tar.gz"@;
            assert(g.spec_url() =~= a + t);
            assert((a + t).subrange(a.len() as int, (a + t).len() as int) =~= t);
        },
    }
}

} // verus!
