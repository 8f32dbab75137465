//! The core data model: parameters for creating things, and the records of
//! things that have been initialized (repos, ecosystems, working copies,
//! whole projects), together with their abstract views and the string
//! forms of repo URLs and facet map keys.

use vstd::prelude::*;

use crate::facet::{
    spec_facet_type_name, InitializedFacet, InitializedFacetView, SupportedFacetType,
};
use crate::strutil::{chars_to_string, contains_seq, find_char, slice_chars, str_eq, str_to_chars};

verus! {

/// The error taxonomy shared by every component. Each operation either
/// succeeds or fails with one of these kinds and a message.
#[derive(Clone, Debug, PartialEq, Eq)]
pub enum SkootError {
    /// Malformed URL, unknown facet key, or otherwise unparseable input.
    Input(String),
    /// Missing or rejected forge credential.
    Auth(String),
    /// Repo, file, release, asset, or facet absent.
    NotFound(String),
    /// Local filesystem or working-copy failure.
    IO(String),
    /// Non-zero exit from VCS or ecosystem tooling; stderr included.
    Subprocess(String),
    /// Forge API non-2xx or transport failure.
    Remote(String),
    /// JSON/UTF-8 deserialization failure.
    Decoding(String),
    /// Facet/ecosystem combination not in the catalogue, or host not recognized.
    Unsupported(String),
    /// Cancelled or deadlined.
    Concurrency(String),
}

/// The set of supported language ecosystems.
#[derive(Clone, Copy, Debug, PartialEq, Eq, Structural)]
pub enum SupportedEcosystems {
    /// The Go ecosystem.
    Go,
    /// The Maven ecosystem.
    Maven,
}

impl Default for SupportedEcosystems {
    fn default() -> (r: Self)
        ensures
            r == SupportedEcosystems::Go,
    {
        SupportedEcosystems::Go
    }
}

/// The abstract value of a Github user or organization.
pub ghost enum GithubUserView {
    User(Seq<char>),
    Organization(Seq<char>),
}

/// The owner of a Github repository: either the authenticated user or an
/// organization. The two are created through different API endpoints.
#[derive(Debug, PartialEq, Eq)]
pub enum GithubUser {
    /// A Github user.
    User(String),
    /// A Github organization.
    Organization(String),
}

impl View for GithubUser {
    type V = GithubUserView;

    open spec fn view(&self) -> GithubUserView {
        match self {
            GithubUser::User(s) => GithubUserView::User(s@),
            GithubUser::Organization(s) => GithubUserView::Organization(s@),
        }
    }
}

impl Clone for GithubUser {
    fn clone(&self) -> (r: Self)
        ensures
            r@ == self@,
    {
        match self {
            GithubUser::User(s) => GithubUser::User(s.clone()),
            GithubUser::Organization(s) => GithubUser::Organization(s.clone()),
        }
    }
}

/// The name carried by a user or organization tag.
pub open spec fn spec_user_name(u: GithubUserView) -> Seq<char> {
    match u {
        GithubUserView::User(s) => s,
        GithubUserView::Organization(s) => s,
    }
}

impl GithubUser {
    /// The name of the user or organization.
    pub fn get_name(&self) -> (r: String)
        ensures
            r@ == spec_user_name(self@),
    {
        match self {
            GithubUser::User(s) => s.clone(),
            GithubUser::Organization(s) => s.clone(),
        }
    }
}

/// The host URL every Github repo lives under.
pub open spec fn spec_github_host() -> Seq<char> {
    "https://github.com"@
}

/// `hostUrl + "/" + owner + "/" + name`: the invariant form of a repo's
/// full URL.
pub open spec fn spec_full_url(owner: Seq<char>, name: Seq<char>) -> Seq<char> {
    spec_github_host() + "/"@ + owner + "/"@ + name
}

/// Builds `https://github.com/{owner}/{name}`.
fn build_full_url(owner: &String, name: &String) -> (r: String)
    ensures
        r@ == spec_full_url(owner@, name@),
{
    let mut r = "https://github.com".to_owned();
    r.append("/");
    r.append(owner.as_str());
    r.append("/");
    r.append(name.as_str());
    r
}

/// The abstract value of the parameters for creating a Github repo.
pub ghost struct GithubRepoParamsView {
    pub name: Seq<char>,
    pub description: Seq<char>,
    pub organization: GithubUserView,
}

/// Parameters for creating a Github repository.
#[derive(Debug, PartialEq, Eq)]
pub struct GithubRepoParams {
    pub name: String,
    pub description: String,
    pub organization: GithubUser,
}

impl View for GithubRepoParams {
    type V = GithubRepoParamsView;

    open spec fn view(&self) -> GithubRepoParamsView {
        GithubRepoParamsView {
            name: self.name@,
            description: self.description@,
            organization: self.organization@,
        }
    }
}

impl Clone for GithubRepoParams {
    fn clone(&self) -> (r: Self)
        ensures
            r@ == self@,
    {
        GithubRepoParams {
            name: self.name.clone(),
            description: self.description.clone(),
            organization: self.organization.clone(),
        }
    }
}

impl GithubRepoParams {
    /// The Github host.
    pub fn host_url(&self) -> (r: String)
        ensures
            r@ == spec_github_host(),
    {
        "https://github.com".to_owned()
    }

    /// The full URL the repo will live under.
    pub fn full_url(&self) -> (r: String)
        ensures
            r@ == spec_full_url(spec_user_name(self.organization@), self.name@),
    {
        let owner = self.organization.get_name();
        build_full_url(&owner, &self.name)
    }
}

/// The abstract value of repo creation parameters.
pub ghost enum RepoCreateParamsView {
    Github(GithubRepoParamsView),
}

/// Parameters for creating a repository at a forge.
#[derive(Debug, PartialEq, Eq)]
pub enum RepoCreateParams {
    /// Parameters for creating a Github repository.
    Github(GithubRepoParams),
}

impl View for RepoCreateParams {
    type V = RepoCreateParamsView;

    open spec fn view(&self) -> RepoCreateParamsView {
        match self {
            RepoCreateParams::Github(p) => RepoCreateParamsView::Github(p@),
        }
    }
}

impl Clone for RepoCreateParams {
    fn clone(&self) -> (r: Self)
        ensures
            r@ == self@,
    {
        match self {
            RepoCreateParams::Github(p) => RepoCreateParams::Github(p.clone()),
        }
    }
}

/// The abstract value of an initialized Github repo.
pub ghost struct InitializedGithubRepoView {
    pub name: Seq<char>,
    pub organization: GithubUserView,
}

/// A Github repository that has been created.
#[derive(Debug, PartialEq, Eq)]
pub struct InitializedGithubRepo {
    pub name: String,
    pub organization: GithubUser,
}

impl View for InitializedGithubRepo {
    type V = InitializedGithubRepoView;

    open spec fn view(&self) -> InitializedGithubRepoView {
        InitializedGithubRepoView { name: self.name@, organization: self.organization@ }
    }
}

impl Clone for InitializedGithubRepo {
    fn clone(&self) -> (r: Self)
        ensures
            r@ == self@,
    {
        InitializedGithubRepo { name: self.name.clone(), organization: self.organization.clone() }
    }
}

impl InitializedGithubRepo {
    /// The Github host.
    pub fn host_url(&self) -> (r: String)
        ensures
            r@ == spec_github_host(),
    {
        "https://github.com".to_owned()
    }

    /// The full URL of the repo.
    pub fn full_url(&self) -> (r: String)
        ensures
            r@ == spec_full_url(spec_user_name(self.organization@), self.name@),
    {
        let owner = self.organization.get_name();
        build_full_url(&owner, &self.name)
    }
}

/// The abstract value of an initialized repo.
pub ghost enum InitializedRepoView {
    Github(InitializedGithubRepoView),
}

/// The owner name of a repo view.
pub open spec fn spec_repo_owner(r: InitializedRepoView) -> Seq<char> {
    match r {
        InitializedRepoView::Github(g) => spec_user_name(g.organization),
    }
}

/// The name of a repo view.
pub open spec fn spec_repo_name(r: InitializedRepoView) -> Seq<char> {
    match r {
        InitializedRepoView::Github(g) => g.name,
    }
}

/// The full URL of a repo view.
pub open spec fn spec_repo_full_url(r: InitializedRepoView) -> Seq<char> {
    spec_full_url(spec_repo_owner(r), spec_repo_name(r))
}

/// An initialized repository along with its host.
#[derive(Debug, PartialEq, Eq)]
pub enum InitializedRepo {
    /// An initialized Github repository.
    Github(InitializedGithubRepo),
}

impl View for InitializedRepo {
    type V = InitializedRepoView;

    open spec fn view(&self) -> InitializedRepoView {
        match self {
            InitializedRepo::Github(g) => InitializedRepoView::Github(g@),
        }
    }
}

impl Clone for InitializedRepo {
    fn clone(&self) -> (r: Self)
        ensures
            r@ == self@,
    {
        match self {
            InitializedRepo::Github(g) => InitializedRepo::Github(g.clone()),
        }
    }
}

impl InitializedRepo {
    /// The host URL of the repo.
    pub fn host_url(&self) -> (r: String)
        ensures
            r@ == spec_github_host(),
    {
        match self {
            InitializedRepo::Github(g) => g.host_url(),
        }
    }

    /// The full URL of the repo: always `hostUrl + "/" + owner + "/" + name`.
    pub fn full_url(&self) -> (r: String)
        ensures
            r@ == spec_repo_full_url(self@),
    {
        match self {
            InitializedRepo::Github(g) => g.full_url(),
        }
    }

    /// Parses a project URL into a repo descriptor. The host must be
    /// `github.com` and the path must be `/{owner}/{name}`; an unknown host
    /// is rejected as unsupported without any network traffic.
    pub fn try_from(value: String) -> (r: Result<InitializedRepo, SkootError>)
        ensures
            forall|sch: Seq<char>, host: Seq<char>, owner: Seq<char>, name: Seq<char>|
                #[trigger] spec_url_shape(value@, sch, host, owner, name) && host == "github.com"@
                    ==> (r matches Ok(repo) && repo@ == InitializedRepoView::Github(
                    InitializedGithubRepoView {
                        name: name,
                        organization: GithubUserView::User(owner),
                    },
                )),
            forall|sch: Seq<char>, host: Seq<char>, owner: Seq<char>, name: Seq<char>|
                #[trigger] spec_url_shape(value@, sch, host, owner, name) && host != "github.com"@
                    ==> (r matches Err(e) && e is Unsupported),
            r matches Ok(repo) ==> exists|sch: Seq<char>, owner: Seq<char>, name: Seq<char>|
                #[trigger] spec_url_shape(value@, sch, "github.com"@, owner, name) && repo@
                    == InitializedRepoView::Github(
                    InitializedGithubRepoView {
                        name: name,
                        organization: GithubUserView::User(owner),
                    },
                ),
            r matches Err(e) ==> e is Input || e is Unsupported,
    {
        parse_repo_url(value.as_str())
    }
}

/// `u` has the shape `scheme://host/owner/name`: the scheme is nonempty and
/// free of colons and slashes, and the host, owner and name are free of
/// slashes. Such a decomposition is unique when it exists.
pub open spec fn spec_url_shape(
    u: Seq<char>,
    sch: Seq<char>,
    host: Seq<char>,
    owner: Seq<char>,
    name: Seq<char>,
) -> bool {
    &&& u == sch + "://"@ + host + "/"@ + owner + "/"@ + name
    &&& sch.len() > 0
    &&& forall|i: int| 0 <= i < sch.len() ==> sch[i] != ':' && sch[i] != '/'
    &&& forall|i: int| 0 <= i < host.len() ==> host[i] != '/' && host[i] != ':'
    &&& forall|i: int| 0 <= i < owner.len() ==> owner[i] != '/'
    &&& forall|i: int| 0 <= i < name.len() ==> name[i] != '/'
}

/// Parses `scheme://host/owner/name`; only the `github.com` host is
/// supported.
#[verifier::rlimit(100)]
#[verifier::spinoff_prover]
pub fn parse_repo_url(u: &str) -> (r: Result<InitializedRepo, SkootError>)
    ensures
        forall|sch: Seq<char>, host: Seq<char>, owner: Seq<char>, name: Seq<char>|
            #[trigger] spec_url_shape(u@, sch, host, owner, name) && host == "github.com"@ ==> (
            r matches Ok(repo) && repo@ == InitializedRepoView::Github(
                InitializedGithubRepoView { name: name, organization: GithubUserView::User(owner) },
            )),
        forall|sch: Seq<char>, host: Seq<char>, owner: Seq<char>, name: Seq<char>|
            #[trigger] spec_url_shape(u@, sch, host, owner, name) && host != "github.com"@ ==> (
            r matches Err(e) && e is Unsupported),
        r matches Ok(repo) ==> exists|sch: Seq<char>, owner: Seq<char>, name: Seq<char>|
            #[trigger] spec_url_shape(u@, sch, "github.com"@, owner, name) && repo@
                == InitializedRepoView::Github(
                InitializedGithubRepoView { name: name, organization: GithubUserView::User(owner) },
            ),
        r matches Err(e) ==> e is Input || e is Unsupported,
{
    proof {
        reveal_strlit("://");
        reveal_strlit("/");
    }
    let cs = str_to_chars(u);
    let n = cs.len();
    let ci = find_char(&cs, 0, ':');
    let si = find_char(&cs, 0, '/');
    // The scheme ends at the first colon, which the first slash must follow
    // immediately, itself followed by a second slash.
    let shape_ok = ci > 0 && ci < n && si == ci + 1 && n - ci > 2;
    if !shape_ok || {
        let c2 = cs[ci + 2];
        c2 != '/'
    } {
        proof {
            assert forall|sch: Seq<char>, host: Seq<char>, owner: Seq<char>, name: Seq<char>|
                spec_url_shape(u@, sch, host, owner, name) implies false by {
                let sl = sch.len() as int;
                assert(u@[sl] == ':');
                assert(u@[sl + 1] == '/');
                assert(u@[sl + 2] == '/');
                assert(ci == sl) by {
                    if ci < sl {
                        assert(u@[ci as int] == sch[ci as int]);
                    }
                }
                assert(si == sl + 1) by {
                    if si < sl + 1 {
                        if si < sl {
                            assert(u@[si as int] == sch[si as int]);
                        }
                    }
                }
            }
        }
        return Err(SkootError::Input("invalid repo URL".to_owned()));
    }
    let hi = find_char(&cs, ci + 3, '/');
    if hi == n {
        proof {
            assert forall|sch: Seq<char>, host: Seq<char>, owner: Seq<char>, name: Seq<char>|
                spec_url_shape(u@, sch, host, owner, name) implies false by {
                lemma_url_shape_indices(u@, sch, host, owner, name, ci as int);
                let hl = sch.len() + 3 + host.len() as int;
                assert(u@[hl] == '/');
                assert(hi <= hl);
                assert(u@[hi as int] == host[hi - (sch.len() + 3) as int]);
            }
        }
        return Err(SkootError::Input("invalid repo URL".to_owned()));
    }
    let oi = find_char(&cs, hi + 1, '/');
    if oi == n {
        proof {
            assert forall|sch: Seq<char>, host: Seq<char>, owner: Seq<char>, name: Seq<char>|
                spec_url_shape(u@, sch, host, owner, name) implies false by {
                lemma_url_shape_indices(u@, sch, host, owner, name, ci as int);
                let hl = sch.len() + 3 + host.len() as int;
                assert(hi == hl) by {
                    if hi < hl {
                        assert(u@[hi as int] == host[hi - (sch.len() + 3) as int]);
                    }
                }
                let ol = hl + 1 + owner.len();
                assert(u@[ol] == '/');
                assert(u@[oi as int] == owner[oi - hl - 1]);
            }
        }
        return Err(SkootError::Input("invalid repo URL".to_owned()));
    }
    let ni = find_char(&cs, oi + 1, '/');
    if ni < n {
        proof {
            assert forall|sch: Seq<char>, host: Seq<char>, owner: Seq<char>, name: Seq<char>|
                spec_url_shape(u@, sch, host, owner, name) implies false by {
                lemma_url_shape_indices(u@, sch, host, owner, name, ci as int);
                let hl = sch.len() + 3 + host.len() as int;
                assert(hi == hl) by {
                    if hi < hl {
                        assert(u@[hi as int] == host[hi - (sch.len() + 3) as int]);
                    }
                }
                let ol = hl + 1 + owner.len();
                assert(oi == ol) by {
                    if oi < ol {
                        assert(u@[oi as int] == owner[oi - hl - 1]);
                    }
                }
                assert(u@[ni as int] == name[ni - ol - 1]);
            }
        }
        return Err(SkootError::Input("invalid repo URL".to_owned()));
    }
    let host = chars_to_string(&slice_chars(&cs, ci + 3, hi));
    let owner = chars_to_string(&slice_chars(&cs, hi + 1, oi));
    let name = chars_to_string(&slice_chars(&cs, oi + 1, cs.len()));
    proof {
        assert forall|sch: Seq<char>, h2: Seq<char>, o2: Seq<char>, n2: Seq<char>|
            spec_url_shape(u@, sch, h2, o2, n2) implies host@ == h2 && owner@ == o2 && name@
            == n2 by {
            lemma_url_shape_indices(u@, sch, h2, o2, n2, ci as int);
            let hl = sch.len() + 3 + h2.len() as int;
            assert(hi == hl) by {
                if hi < hl {
                    assert(u@[hi as int] == h2[hi - (sch.len() + 3) as int]);
                }
            }
            let ol = hl + 1 + o2.len();
            assert(oi == ol) by {
                if oi < ol {
                    assert(u@[oi as int] == o2[oi - hl - 1]);
                }
            }
            assert(host@ =~= h2);
            assert(owner@ =~= o2);
            assert(name@ =~= n2);
        }
    }
    if str_eq(host.as_str(), "github.com") {
        proof {
            reveal_strlit("github.com");
            assert("github.com"@ =~= seq!['g', 'i', 't', 'h', 'u', 'b', '.', 'c', 'o', 'm']);
            let sch = u@.subrange(0, ci as int);
            assert(spec_url_shape(u@, sch, "github.com"@, owner@, name@)) by {
                assert(u@ =~= sch + "://"@ + "github.com"@ + "/"@ + owner@ + "/"@ + name@) by {
                    assert(host@ == "github.com"@);
                    assert forall|i: int| 0 <= i < u@.len() implies u@[i] == (sch + "://"@
                        + "github.com"@ + "/"@ + owner@ + "/"@ + name@)[i] by {
                        if i < ci {
                            assert(sch[i] == u@[i]);
                        } else if ci + 3 <= i < hi {
                            assert(host@[i - (ci + 3)] == u@[i]);
                        } else if hi + 1 <= i < oi {
                            assert(owner@[i - (hi + 1)] == u@[i]);
                        } else if oi + 1 <= i {
                            assert(name@[i - (oi + 1)] == u@[i]);
                        }
                    }
                }
                assert forall|i: int| 0 <= i < sch.len() implies sch[i] != ':' && sch[i]
                    != '/' by {
                    assert(sch[i] == u@[i]);
                }
                assert forall|i: int|
                    0 <= i < "github.com"@.len() implies "github.com"@[i] != '/'
                    && "github.com"@[i] != ':' by {
                    assert("github.com"@[i] == seq![
                        'g', 'i', 't', 'h', 'u', 'b', '.', 'c', 'o', 'm'
                    ][i]);
                }
                assert forall|i: int| 0 <= i < owner@.len() implies owner@[i] != '/' by {
                    assert(owner@[i] == u@[hi + 1 + i]);
                }
                assert forall|i: int| 0 <= i < name@.len() implies name@[i] != '/' by {
                    assert(name@[i] == u@[oi + 1 + i]);
                }
            }
        }
        Ok(
            InitializedRepo::Github(
                InitializedGithubRepo { name, organization: GithubUser::User(owner) },
            ),
        )
    } else {
        Err(SkootError::Unsupported("unsupported repo host".to_owned()))
    }
}

/// For a URL of the given shape, locates the scheme/host boundary: the
/// first colon sits at the end of the scheme, and the three following
/// characters are `//` and the start of the host.
proof fn lemma_url_shape_indices(
    u: Seq<char>,
    sch: Seq<char>,
    host: Seq<char>,
    owner: Seq<char>,
    name: Seq<char>,
    ci: int,
)
    requires
        spec_url_shape(u, sch, host, owner, name),
        0 <= ci < u.len(),
        u[ci] == ':',
        forall|k: int| 0 <= k < ci ==> u[k] != ':',
    ensures
        ci == sch.len(),
        u.len() == sch.len() + 3 + host.len() + 1 + owner.len() + 1 + name.len(),
        u[sch.len() + 3 + host.len() as int] == '/',
        u[sch.len() + 3 + host.len() + 1 + owner.len() as int] == '/',
        forall|k: int|
            sch.len() + 3 <= k < sch.len() + 3 + host.len() ==> u[k] == host[k - (sch.len() + 3)],
        forall|k: int|
            sch.len() + 3 + host.len() + 1 <= k < sch.len() + 3 + host.len() + 1 + owner.len()
                ==> u[k] == owner[k - (sch.len() + 3 + host.len() + 1)],
        forall|k: int|
            sch.len() + 3 + host.len() + 1 + owner.len() + 1 <= k < u.len() ==> u[k] == name[k - (
            sch.len() + 3 + host.len() + 1 + owner.len() + 1)],
{
    reveal_strlit("://");
    reveal_strlit("/");
    assert(u[sch.len() as int] == ':');
    assert(ci == sch.len()) by {
        if ci < sch.len() {
            assert(u[ci] == sch[ci]);
        }
    }
}

/// The abstract value of Go ecosystem parameters.
pub ghost struct GoParamsView {
    pub name: Seq<char>,
    pub host: Seq<char>,
}

/// Parameters for initializing a Go module.
#[derive(Debug, PartialEq, Eq)]
pub struct GoParams {
    pub name: String,
    pub host: String,
}

impl View for GoParams {
    type V = GoParamsView;

    open spec fn view(&self) -> GoParamsView {
        GoParamsView { name: self.name@, host: self.host@ }
    }
}

impl Clone for GoParams {
    fn clone(&self) -> (r: Self)
        ensures
            r@ == self@,
    {
        GoParams { name: self.name.clone(), host: self.host.clone() }
    }
}

/// The module string `{host}/{name}`.
pub open spec fn spec_go_module(host: Seq<char>, name: Seq<char>) -> Seq<char> {
    host + "/"@ + name
}

/// Builds `{host}/{name}`.
fn build_module(host: &String, name: &String) -> (r: String)
    ensures
        r@ == spec_go_module(host@, name@),
{
    let mut r = host.clone();
    r.append("/");
    r.append(name.as_str());
    r
}

impl GoParams {
    /// The module name, in the form `{host}/{name}`.
    pub fn module(&self) -> (r: String)
        ensures
            r@ == spec_go_module(self.host@, self.name@),
    {
        build_module(&self.host, &self.name)
    }
}

/// The abstract value of an initialized Go module.
pub ghost struct InitializedGoView {
    pub name: Seq<char>,
    pub host: Seq<char>,
}

/// An initialized Go module.
#[derive(Debug, PartialEq, Eq)]
pub struct InitializedGo {
    pub name: String,
    pub host: String,
}

impl View for InitializedGo {
    type V = InitializedGoView;

    open spec fn view(&self) -> InitializedGoView {
        InitializedGoView { name: self.name@, host: self.host@ }
    }
}

impl Clone for InitializedGo {
    fn clone(&self) -> (r: Self)
        ensures
            r@ == self@,
    {
        InitializedGo { name: self.name.clone(), host: self.host.clone() }
    }
}

impl InitializedGo {
    /// The module name, in the form `{host}/{name}`.
    pub fn module(&self) -> (r: String)
        ensures
            r@ == spec_go_module(self.host@, self.name@),
    {
        build_module(&self.host, &self.name)
    }
}

/// The abstract value of Maven ecosystem parameters.
pub ghost struct MavenParamsView {
    pub group_id: Seq<char>,
    pub artifact_id: Seq<char>,
}

/// Parameters for initializing a Maven project.
#[derive(Debug, PartialEq, Eq)]
pub struct MavenParams {
    pub group_id: String,
    pub artifact_id: String,
}

impl View for MavenParams {
    type V = MavenParamsView;

    open spec fn view(&self) -> MavenParamsView {
        MavenParamsView { group_id: self.group_id@, artifact_id: self.artifact_id@ }
    }
}

impl Clone for MavenParams {
    fn clone(&self) -> (r: Self)
        ensures
            r@ == self@,
    {
        MavenParams { group_id: self.group_id.clone(), artifact_id: self.artifact_id.clone() }
    }
}

/// The abstract value of an initialized Maven project.
pub ghost struct InitializedMavenView {
    pub group_id: Seq<char>,
    pub artifact_id: Seq<char>,
}

/// An initialized Maven project.
#[derive(Debug, PartialEq, Eq)]
pub struct InitializedMaven {
    pub group_id: String,
    pub artifact_id: String,
}

impl View for InitializedMaven {
    type V = InitializedMavenView;

    open spec fn view(&self) -> InitializedMavenView {
        InitializedMavenView { group_id: self.group_id@, artifact_id: self.artifact_id@ }
    }
}

impl Clone for InitializedMaven {
    fn clone(&self) -> (r: Self)
        ensures
            r@ == self@,
    {
        InitializedMaven {
            group_id: self.group_id.clone(),
            artifact_id: self.artifact_id.clone(),
        }
    }
}

/// The abstract value of ecosystem initialization parameters.
pub ghost enum EcosystemInitializeParamsView {
    Go(GoParamsView),
    Maven(MavenParamsView),
}

/// Parameters for initializing a language ecosystem in a working copy.
#[derive(Debug, PartialEq, Eq)]
pub enum EcosystemInitializeParams {
    /// Parameters for a Go module.
    Go(GoParams),
    /// Parameters for a Maven project.
    Maven(MavenParams),
}

impl View for EcosystemInitializeParams {
    type V = EcosystemInitializeParamsView;

    open spec fn view(&self) -> EcosystemInitializeParamsView {
        match self {
            EcosystemInitializeParams::Go(p) => EcosystemInitializeParamsView::Go(p@),
            EcosystemInitializeParams::Maven(p) => EcosystemInitializeParamsView::Maven(p@),
        }
    }
}

impl Clone for EcosystemInitializeParams {
    fn clone(&self) -> (r: Self)
        ensures
            r@ == self@,
    {
        match self {
            EcosystemInitializeParams::Go(p) => EcosystemInitializeParams::Go(p.clone()),
            EcosystemInitializeParams::Maven(p) => EcosystemInitializeParams::Maven(p.clone()),
        }
    }
}

/// The abstract value of an initialized ecosystem.
pub ghost enum InitializedEcosystemView {
    Go(InitializedGoView),
    Maven(InitializedMavenView),
}

/// The post-initialization state of a project's language ecosystem.
#[derive(Debug, PartialEq, Eq)]
pub enum InitializedEcosystem {
    /// An initialized Go module.
    Go(InitializedGo),
    /// An initialized Maven project.
    Maven(InitializedMaven),
}

impl View for InitializedEcosystem {
    type V = InitializedEcosystemView;

    open spec fn view(&self) -> InitializedEcosystemView {
        match self {
            InitializedEcosystem::Go(g) => InitializedEcosystemView::Go(g@),
            InitializedEcosystem::Maven(m) => InitializedEcosystemView::Maven(m@),
        }
    }
}

impl Clone for InitializedEcosystem {
    fn clone(&self) -> (r: Self)
        ensures
            r@ == self@,
    {
        match self {
            InitializedEcosystem::Go(g) => InitializedEcosystem::Go(g.clone()),
            InitializedEcosystem::Maven(m) => InitializedEcosystem::Maven(m.clone()),
        }
    }
}

/// The abstract value of source initialization parameters.
pub ghost struct SourceInitializeParamsView {
    pub parent_path: Seq<char>,
}

/// Parameters for initializing a working copy: the parent directory the
/// repo is cloned under.
#[derive(Debug, PartialEq, Eq)]
pub struct SourceInitializeParams {
    pub parent_path: String,
}

impl View for SourceInitializeParams {
    type V = SourceInitializeParamsView;

    open spec fn view(&self) -> SourceInitializeParamsView {
        SourceInitializeParamsView { parent_path: self.parent_path@ }
    }
}

impl Clone for SourceInitializeParams {
    fn clone(&self) -> (r: Self)
        ensures
            r@ == self@,
    {
        SourceInitializeParams { parent_path: self.parent_path.clone() }
    }
}

/// The working-copy path `{parent_path}/{name}`.
pub open spec fn spec_source_path(parent: Seq<char>, name: Seq<char>) -> Seq<char> {
    parent + "/"@ + name
}

impl SourceInitializeParams {
    /// The full path of a working copy with the given name.
    pub fn path(&self, name: &str) -> (r: String)
        ensures
            r@ == spec_source_path(self.parent_path@, name@),
    {
        let mut r = self.parent_path.clone();
        r.append("/");
        r.append(name);
        r
    }
}

/// The abstract value of a working copy.
pub ghost struct InitializedSourceView {
    pub path: Seq<char>,
}

/// A local working copy of a project's source.
#[derive(Debug, PartialEq, Eq)]
pub struct InitializedSource {
    pub path: String,
}

impl View for InitializedSource {
    type V = InitializedSourceView;

    open spec fn view(&self) -> InitializedSourceView {
        InitializedSourceView { path: self.path@ }
    }
}

impl Clone for InitializedSource {
    fn clone(&self) -> (r: Self)
        ensures
            r@ == self@,
    {
        InitializedSource { path: self.path.clone() }
    }
}

/// The parameter for getting an initialized repository.
#[derive(Debug, PartialEq, Eq)]
pub struct InitializedRepoGetParams {
    /// The URL of the repository to get.
    pub repo_url: String,
}

impl Clone for InitializedRepoGetParams {
    fn clone(&self) -> (r: Self)
        ensures
            r.repo_url@ == self.repo_url@,
    {
        InitializedRepoGetParams { repo_url: self.repo_url.clone() }
    }
}

/// The abstract value of a facet map key.
pub ghost enum FacetMapKeyView {
    Name(Seq<char>),
    Type(SupportedFacetType),
}

/// The key a facet is stored under in a project: either the facet's type
/// or a free-form name. Serialized as `"Type: <facet>"` or
/// `"Name: <string>"`.
#[derive(Debug, PartialEq, Eq, Hash)]
pub enum FacetMapKey {
    /// A key based on the name of a facet.
    Name(String),
    /// A key based on the type of a facet.
    Type(SupportedFacetType),
}

impl View for FacetMapKey {
    type V = FacetMapKeyView;

    open spec fn view(&self) -> FacetMapKeyView {
        match self {
            FacetMapKey::Name(s) => FacetMapKeyView::Name(s@),
            FacetMapKey::Type(t) => FacetMapKeyView::Type(*t),
        }
    }
}

impl Clone for FacetMapKey {
    fn clone(&self) -> (r: Self)
        ensures
            r@ == self@,
    {
        match self {
            FacetMapKey::Name(s) => FacetMapKey::Name(s.clone()),
            FacetMapKey::Type(t) => FacetMapKey::Type(*t),
        }
    }
}

/// The serialized form of a facet map key.
pub open spec fn spec_fmk_string(k: FacetMapKeyView) -> Seq<char> {
    match k {
        FacetMapKeyView::Name(s) => "Name: "@ + s,
        FacetMapKeyView::Type(t) => "Type: "@ + spec_facet_type_name(t),
    }
}

/// A name key can be carried by its string form exactly when the name does
/// not itself contain the `": "` separator.
pub open spec fn wf_fmk(k: FacetMapKeyView) -> bool {
    match k {
        FacetMapKeyView::Name(s) => !contains_seq(s, ": "@),
        FacetMapKeyView::Type(t) => true,
    }
}

impl FacetMapKey {
    /// Serializes the key as `"Type: <facet>"` or `"Name: <string>"`.
    pub fn encode(&self) -> (r: String)
        ensures
            r@ == spec_fmk_string(self@),
    {
        match self {
            FacetMapKey::Name(s) => {
                let mut r = "Name: ".to_owned();
                r.append(s.as_str());
                r
            },
            FacetMapKey::Type(t) => {
                let mut r = "Type: ".to_owned();
                let name = t.name();
                r.append(name.as_str());
                r
            },
        }
    }

    /// Parses a serialized facet map key; the unique well-formed key with
    /// this string form is returned when one exists.
    pub fn parse(s: &str) -> (r: Option<FacetMapKey>)
        ensures
            forall|kv: FacetMapKeyView|
                wf_fmk(kv) && s@ == #[trigger] spec_fmk_string(kv) ==> (r matches Some(k) && k@
                    == kv),
    {
        proof {
            reveal_strlit("Name: ");
            reveal_strlit("Type: ");
            reveal_strlit("Name");
            reveal_strlit("Type");
            crate::facet::reveal_facet_type_names();
        }
        let cs = str_to_chars(s);
        let sep = find_sep(&cs, 0);
        if sep == cs.len() {
            proof {
                assert forall|kv: FacetMapKeyView|
                    wf_fmk(kv) && s@ == spec_fmk_string(kv) implies false by {
                    assert(s@[4] == ':' && s@[5] == ' ');
                }
            }
            return None;
        }
        let sep2 = find_sep(&cs, sep + 1);
        if sep2 < cs.len() {
            proof {
                assert forall|kv: FacetMapKeyView|
                    wf_fmk(kv) && s@ == spec_fmk_string(kv) implies false by {
                    assert(s@[4] == ':' && s@[5] == ' ');
                    assert(sep == 4) by {
                        lemma_fmk_sep(s@, kv, sep as int);
                    }
                    lemma_fmk_no_second_sep(s@, kv, sep2 as int);
                }
            }
            return None;
        }
        let tag = chars_to_string(&slice_chars(&cs, 0, sep));
        let rest = chars_to_string(&slice_chars(&cs, sep + 2, cs.len()));
        let parsed: Option<FacetMapKey> = if str_eq(tag.as_str(), "Name") {
            Some(FacetMapKey::Name(rest))
        } else if str_eq(tag.as_str(), "Type") {
            match SupportedFacetType::parse(rest.as_str()) {
                Some(t) => Some(FacetMapKey::Type(t)),
                None => None,
            }
        } else {
            None
        };
        proof {
            assert forall|kv: FacetMapKeyView|
                wf_fmk(kv) && s@ == spec_fmk_string(kv) implies (parsed matches Some(k) && k@
                == kv) by {
                assert(s@[4] == ':' && s@[5] == ' ');
                assert(sep == 4) by {
                    lemma_fmk_sep(s@, kv, sep as int);
                }
                match kv {
                    FacetMapKeyView::Name(nm) => {
                        assert(tag@ =~= "Name"@);
                        assert(rest@ =~= nm);
                    },
                    FacetMapKeyView::Type(t) => {
                        assert(tag@ =~= "Type"@);
                        assert("Type"@[0] == 'T' && "Name"@[0] == 'N');
                        assert(tag@ != "Name"@);
                        assert(rest@ =~= spec_facet_type_name(t));
                    },
                }
            }
        }
        parsed
    }
}

/// Finds the first `": "` separator at or after `from`, or `v.len()`.
fn find_sep(v: &Vec<char>, from: usize) -> (r: usize)
    requires
        from <= v.len(),
    ensures
        from <= r <= v.len(),
        forall|k: int|
            from <= k < r && k + 1 < v.len() ==> !(#[trigger] v@[k] == ':' && v@[k + 1] == ' '),
        r < v.len() ==> r + 1 < v.len() && v@[r as int] == ':' && v@[r as int + 1] == ' ',
{
    let mut i = from;
    while i < v.len()
        invariant
            from <= i <= v.len(),
            forall|k: int|
                from <= k < i && k + 1 < v.len() ==> !(#[trigger] v@[k] == ':' && v@[k + 1]
                    == ' '),
        decreases v.len() - i,
    {
        if v[i] == ':' && i + 1 < v.len() {
            if v[i + 1] == ' ' {
                return i;
            }
        }
        i = i + 1;
    }
    i
}

/// In the string form of a well-formed key the first `": "` sits at index 4,
/// right after the `Name`/`Type` tag.
proof fn lemma_fmk_sep(s: Seq<char>, kv: FacetMapKeyView, sep: int)
    requires
        wf_fmk(kv),
        s == spec_fmk_string(kv),
        0 <= sep < s.len(),
        s[sep] == ':',
        sep + 1 < s.len() && s[sep + 1] == ' ',
        forall|k: int|
            0 <= k < sep && k + 1 < s.len() ==> !(#[trigger] s[k] == ':' && s[k + 1] == ' '),
    ensures
        sep == 4,
{
    reveal_strlit("Name: ");
    reveal_strlit("Type: ");
    assert(s[4] == ':' && s[5] == ' ');
    if sep < 4 {
        assert(!(s[sep] == ':' && s[sep + 1] == ' ')) by {
            match kv {
                FacetMapKeyView::Name(nm) => {
                    assert(s[sep] == "Name: "@[sep]);
                },
                FacetMapKeyView::Type(t) => {
                    assert(s[sep] == "Type: "@[sep]);
                },
            }
        }
    }
}

/// Past the tag, the string form of a well-formed key holds no further
/// `": "` separator.
proof fn lemma_fmk_no_second_sep(s: Seq<char>, kv: FacetMapKeyView, p: int)
    requires
        wf_fmk(kv),
        s == spec_fmk_string(kv),
        4 < p,
        p + 1 < s.len(),
    ensures
        !(s[p] == ':' && s[p + 1] == ' '),
{
    reveal_strlit("Name: ");
    reveal_strlit("Type: ");
    reveal_strlit(": ");
    if s[p] == ':' && s[p + 1] == ' ' {
        match kv {
            FacetMapKeyView::Name(nm) => {
                assert(nm.subrange(p - 6, p - 6 + ": "@.len() as int) =~= ": "@) by {
                    assert(nm[p - 6] == s[p]);
                    assert(nm[p - 5] == s[p + 1]);
                    assert(": "@.len() == 2);
                }
                assert(contains_seq(nm, ": "@));
            },
            FacetMapKeyView::Type(t) => {
                crate::facet::reveal_facet_type_names();
                assert(spec_facet_type_name(t)[p - 6] == s[p]);
            },
        }
    }
}

/// The abstract value of an initialized project.
pub ghost struct InitializedProjectView {
    pub repo: InitializedRepoView,
    pub ecosystem: InitializedEcosystemView,
    pub source: InitializedSourceView,
    pub facets: Seq<(FacetMapKeyView, InitializedFacetView)>,
}

/// A project that has been created: its repo, ecosystem, working copy and
/// the facets applied to it, keyed by facet map key. Keys are unique and
/// kept in insertion order.
#[derive(Debug, PartialEq, Eq)]
pub struct InitializedProject {
    pub repo: InitializedRepo,
    pub ecosystem: InitializedEcosystem,
    pub source: InitializedSource,
    pub facets: Vec<(FacetMapKey, InitializedFacet)>,
}

/// The views of a sequence of facet map entries.
pub open spec fn views_of_facets(fs: Seq<(FacetMapKey, InitializedFacet)>) -> Seq<
    (FacetMapKeyView, InitializedFacetView),
> {
    fs.map_values(|p: (FacetMapKey, InitializedFacet)| (p.0@, p.1@))
}

impl View for InitializedProject {
    type V = InitializedProjectView;

    open spec fn view(&self) -> InitializedProjectView {
        InitializedProjectView {
            repo: self.repo@,
            ecosystem: self.ecosystem@,
            source: self.source@,
            facets: views_of_facets(self.facets@),
        }
    }
}

/// Parameters for creating a whole project.
#[derive(Debug, PartialEq, Eq)]
pub struct ProjectCreateParams {
    /// The name of the project.
    pub name: String,
    /// Parameters for creating the repository.
    pub repo_params: RepoCreateParams,
    /// Parameters for initializing the ecosystem.
    pub ecosystem_params: EcosystemInitializeParams,
    /// Parameters for initializing the working copy.
    pub source_params: SourceInitializeParams,
}

impl Clone for ProjectCreateParams {
    fn clone(&self) -> (r: Self)
        ensures
            r.name@ == self.name@,
            r.repo_params@ == self.repo_params@,
            r.ecosystem_params@ == self.ecosystem_params@,
            r.source_params@ == self.source_params@,
    {
        ProjectCreateParams {
            name: self.name.clone(),
            repo_params: self.repo_params.clone(),
            ecosystem_params: self.ecosystem_params.clone(),
            source_params: self.source_params.clone(),
        }
    }
}

/// Parameters for getting an existing project.
#[derive(Debug, PartialEq, Eq)]
pub struct ProjectGetParams {
    /// The URL of the project to get.
    pub project_url: String,
}

impl Clone for ProjectGetParams {
    fn clone(&self) -> (r: Self)
        ensures
            r.project_url@ == self.project_url@,
    {
        ProjectGetParams { project_url: self.project_url.clone() }
    }
}

/// The release a request is about: one named by tag, or the latest.
#[derive(Debug, PartialEq, Eq)]
pub enum ProjectReleaseParam {
    /// A release named by its tag.
    Tag(String),
    /// The latest release.
    Latest,
}

impl Clone for ProjectReleaseParam {
    fn clone(&self) -> (r: Self)
        ensures
            r@ == self@,
    {
        match self {
            ProjectReleaseParam::Tag(t) => ProjectReleaseParam::Tag(t.clone()),
            ProjectReleaseParam::Latest => ProjectReleaseParam::Latest,
        }
    }
}

/// The abstract value of a release parameter.
pub ghost enum ProjectReleaseParamView {
    Tag(Seq<char>),
    Latest,
}

impl View for ProjectReleaseParam {
    type V = ProjectReleaseParamView;

    open spec fn view(&self) -> ProjectReleaseParamView {
        match self {
            ProjectReleaseParam::Tag(t) => ProjectReleaseParamView::Tag(t@),
            ProjectReleaseParam::Latest => ProjectReleaseParamView::Latest,
        }
    }
}

impl ProjectReleaseParam {
    /// The tag of the release, if one was named.
    pub fn tag(&self) -> (r: Option<String>)
        ensures
            match self@ {
                ProjectReleaseParamView::Tag(t) => r matches Some(s) && s@ == t,
                ProjectReleaseParamView::Latest => r is None,
            },
    {
        match self {
            ProjectReleaseParam::Tag(t) => Some(t.clone()),
            ProjectReleaseParam::Latest => None,
        }
    }
}

/// Parameters for listing the release outputs of a project.
#[derive(Debug, PartialEq, Eq)]
pub struct ProjectOutputsListParams {
    /// The project whose outputs to list.
    pub initialized_project: InitializedProject,
    /// The release to list outputs for.
    pub release: ProjectReleaseParam,
}

/// Parameters for fetching one output of a project.
#[derive(Debug, PartialEq, Eq)]
pub struct ProjectOutputParams {
    /// The project whose output to fetch.
    pub initialized_project: InitializedProject,
    /// The release the output belongs to.
    pub release: ProjectReleaseParam,
    /// The exact name of the output asset.
    pub project_output: String,
}

/// Parameters for archiving a project.
#[derive(Debug, PartialEq, Eq)]
pub struct ProjectArchiveParams {
    /// The project to archive.
    pub initialized_project: InitializedProject,
}

/// The abstract value of an output classification.
pub ghost enum ProjectOutputTypeView {
    SBOM,
    InToto,
    Custom(Seq<char>),
}

/// The classification of a release output.
#[derive(Debug, PartialEq, Eq)]
pub enum ProjectOutputType {
    /// A software bill of materials.
    SBOM,
    /// An in-toto attestation.
    InToto,
    /// Any other output.
    Custom(String),
}

impl View for ProjectOutputType {
    type V = ProjectOutputTypeView;

    open spec fn view(&self) -> ProjectOutputTypeView {
        match self {
            ProjectOutputType::SBOM => ProjectOutputTypeView::SBOM,
            ProjectOutputType::InToto => ProjectOutputTypeView::InToto,
            ProjectOutputType::Custom(s) => ProjectOutputTypeView::Custom(s@),
        }
    }
}

impl Clone for ProjectOutputType {
    fn clone(&self) -> (r: Self)
        ensures
            r@ == self@,
    {
        match self {
            ProjectOutputType::SBOM => ProjectOutputType::SBOM,
            ProjectOutputType::InToto => ProjectOutputType::InToto,
            ProjectOutputType::Custom(s) => ProjectOutputType::Custom(s.clone()),
        }
    }
}

/// The abstract value of an output reference.
pub ghost struct ProjectOutputReferenceView {
    pub output_type: ProjectOutputTypeView,
    pub name: Seq<char>,
}

/// A reference to one release output: its name and its classification.
#[derive(Debug, PartialEq, Eq)]
pub struct ProjectOutputReference {
    /// The classification of the output.
    pub output_type: ProjectOutputType,
    /// The name of the output asset.
    pub name: String,
}

impl View for ProjectOutputReference {
    type V = ProjectOutputReferenceView;

    open spec fn view(&self) -> ProjectOutputReferenceView {
        ProjectOutputReferenceView { output_type: self.output_type@, name: self.name@ }
    }
}

impl Clone for ProjectOutputReference {
    fn clone(&self) -> (r: Self)
        ensures
            r@ == self@,
    {
        ProjectOutputReference { output_type: self.output_type.clone(), name: self.name.clone() }
    }
}

/// One fetched release output: its reference and its content as text.
#[derive(Debug, PartialEq, Eq)]
pub struct ProjectOutput {
    /// The reference to the output.
    pub reference: ProjectOutputReference,
    /// The content of the output.
    pub output: String,
}

/// Parameters for getting a facet from a project.
#[derive(Debug, PartialEq, Eq)]
pub struct FacetGetParams {
    /// Parameters for first getting the project.
    pub project_get_params: ProjectGetParams,
    /// The key of the facet to get.
    pub facet_map_key: FacetMapKey,
}

impl Clone for FacetGetParams {
    fn clone(&self) -> (r: Self)
        ensures
            r.project_get_params.project_url@ == self.project_get_params.project_url@,
            r.facet_map_key@ == self.facet_map_key@,
    {
        FacetGetParams {
            project_get_params: self.project_get_params.clone(),
            facet_map_key: self.facet_map_key.clone(),
        }
    }
}

/// Configuration for the engine: the root under which working copies live.
#[derive(Debug, PartialEq, Eq)]
pub struct Config {
    /// The local path cached projects are cloned under.
    pub local_project_path: String,
}

impl Default for Config {
    fn default() -> (r: Self)
        ensures
            r.local_project_path@ == "/tmp"@,
    {
        Config { local_project_path: "/tmp".to_owned() }
    }
}

impl Clone for Config {
    fn clone(&self) -> (r: Self)
        ensures
            r.local_project_path@ == self.local_project_path@,
    {
        Config { local_project_path: self.local_project_path.clone() }
    }
}

/// The full-URL invariant: every repo's full URL is its host URL, the
/// owner and the name, joined by slashes.
pub proof fn lemma_full_url_invariant(r: InitializedRepoView)
    ensures
        spec_repo_full_url(r) == spec_github_host() + "/"@ + spec_repo_owner(r) + "/"@
            + spec_repo_name(r),
{
}

/// Round trip of facet map keys, value to string and back: any
/// well-formed key survives serialization.
pub fn facet_map_key_round_trip(k: &FacetMapKey) -> (r: Option<FacetMapKey>)
    requires
        wf_fmk(k@),
    ensures
        r matches Some(k2) && k2@ == k@,
{
    let s = k.encode();
    FacetMapKey::parse(s.as_str())
}

/// Round trip of facet map keys, string to value and back: any valid
/// serialized key parses, and re-serializing returns the same string.
pub fn facet_map_key_string_round_trip(s: &str) -> (r: Option<String>)
    requires
        exists|kv: FacetMapKeyView| wf_fmk(kv) && s@ == #[trigger] spec_fmk_string(kv),
    ensures
        r matches Some(t) && t@ == s@,
{
    let parsed = FacetMapKey::parse(s);
    proof {
        let kv = choose|kv: FacetMapKeyView| wf_fmk(kv) && s@ == #[trigger] spec_fmk_string(kv);
        assert(parsed matches Some(k) && k@ == kv);
    }
    match parsed {
        Some(k) => Some(k.encode()),
        None => None,
    }
}

} // verus!
