//! The repo driver: creating, fetching, archiving a forge repository and
//! fetching file content from its default branch.

use vstd::prelude::*;

use crate::manifest::{spec_quote, write_quoted};
use crate::model::{
    parse_repo_url, spec_repo_full_url, spec_repo_name, spec_source_path, spec_url_shape,
    spec_user_name, GithubRepoParams, GithubUser, GithubUserView, InitializedGithubRepo,
    InitializedGithubRepoView, InitializedRepo, InitializedRepoGetParams, InitializedRepoView,
    InitializedSource, RepoCreateParams, RepoCreateParamsView, SkootError,
};
use crate::ports::{ForgeClient, LocalClient};
use crate::time::{format_rfc3339, spec_rfc3339, utc_now_unix};

verus! {

/// The repo record that creating with the given parameters produces.
pub open spec fn spec_created_repo(p: RepoCreateParamsView) -> InitializedRepoView {
    match p {
        RepoCreateParamsView::Github(g) => InitializedRepoView::Github(
            InitializedGithubRepoView { name: g.name, organization: g.organization },
        ),
    }
}

/// The contract every repo driver honors.
pub trait RepoService {
    /// Creates the repository at the forge; on success the record mirrors
    /// the creation parameters.
    fn initialize(&self, params: RepoCreateParams) -> (r: Result<InitializedRepo, SkootError>)
        ensures
            r matches Ok(rp) ==> rp@ == spec_created_repo(params@),
    ;

    /// Resolves a project URL to a repo descriptor.  A URL whose host is
    /// not `github.com` is rejected as unsupported; on success the
    /// descriptor is exactly what the URL names.
    fn get(&self, params: InitializedRepoGetParams) -> (r: Result<InitializedRepo, SkootError>)
        ensures
            forall|sch: Seq<char>, host: Seq<char>, owner: Seq<char>, name: Seq<char>|
                #[trigger] spec_url_shape(params.repo_url@, sch, host, owner, name) && host
                    != "github.com"@ ==> (r matches Err(e) && e is Unsupported),
            forall|sch: Seq<char>, host: Seq<char>, owner: Seq<char>, name: Seq<char>|
                #[trigger] spec_url_shape(params.repo_url@, sch, host, owner, name) && host
                    == "github.com"@ ==> (r matches Ok(rp) ==> rp@ == InitializedRepoView::Github(
                    InitializedGithubRepoView {
                        name: name,
                        organization: GithubUserView::User(owner),
                    },
                )),
    ;

    /// Clones the repo into `path/<repoName>`.
    fn clone_local(&self, initialized_repo: InitializedRepo, path: String) -> (r: Result<
        InitializedSource,
        SkootError,
    >)
        ensures
            r matches Ok(s) ==> s.path@ == spec_source_path(
                path@,
                spec_repo_name(initialized_repo@),
            ),
    ;

    /// Pulls updates when `path` is already a working copy, else clones
    /// the repo under it.
    fn clone_local_or_pull(&self, initialized_repo: InitializedRepo, path: String) -> (r: Result<
        InitializedSource,
        SkootError,
    >)
        ensures
            r matches Ok(s) ==> s.path@ == path@ || s.path@ == spec_source_path(
                path@,
                spec_repo_name(initialized_repo@),
            ),
    ;

    /// Fetches the decoded content of a file on the default branch; an
    /// absent or empty file is not found.
    fn fetch_file_content(&self, initialized_repo: &InitializedRepo, path: String) -> Result<
        String,
        SkootError,
    >;

    /// Archives the repo at the forge; on success returns its full URL.
    fn archive(&self, initialized_repo: InitializedRepo) -> (r: Result<String, SkootError>)
        ensures
            r matches Ok(u) ==> u@ == spec_repo_full_url(initialized_repo@),
    ;
}

/// The create-repo endpoint: user-owned repos are created under the
/// authenticated user, organization-owned under the organization.
pub open spec fn spec_create_repo_endpoint(u: GithubUserView) -> Seq<char> {
    match u {
        GithubUserView::User(n) => "/user/repos"@,
        GithubUserView::Organization(n) => "/orgs/"@ + n + "/repos"@,
    }
}

/// The fixed create-repo request body: public, with issues, projects and
/// wiki enabled.
pub open spec fn spec_create_repo_body(g: crate::model::GithubRepoParamsView) -> Seq<char> {
    "{\"name\":"@ + spec_quote(g.name) + ",\"description\":"@ + spec_quote(g.description)
        + ",\"private\":false,\"has_issues\":true,\"has_projects\":true,\"has_wiki\":true}"@
}

/// The repository-created event record, in the CDEvents
/// repository.created schema.
pub open spec fn spec_repo_created_event(g: crate::model::GithubRepoParamsView, ts: Seq<
    char,
>) -> Seq<char> {
    "{\"context\":{\"version\":\"0.3.0\",\"id\":"@ + spec_quote(
        spec_user_name(g.organization) + "/"@ + g.name,
    ) + ",\"source\":\"skootrs.github.creator\",\"type\":\"dev.cdevents.repository.created.0.1.1\",\"timestamp\":"@
        + spec_quote(ts) + "},\"subject\":{\"id\":"@ + spec_quote(
        spec_user_name(g.organization) + "/"@ + g.name,
    ) + ",\"source\":\"skootrs.github.creator\",\"type\":\"repository\",\"content\":{\"name\":"@
        + spec_quote(g.name) + ",\"url\":"@ + spec_quote(
        crate::model::spec_full_url(spec_user_name(g.organization), g.name),
    ) + "}}}"@
}

/// Builds the create-repo endpoint for the owner.
fn build_create_repo_endpoint(owner: &GithubUser) -> (r: String)
    ensures
        r@ == spec_create_repo_endpoint(owner@),
{
    match owner {
        GithubUser::User(_) => "/user/repos".to_owned(),
        GithubUser::Organization(n) => {
            let mut r = "/orgs/".to_owned();
            r.append(n.as_str());
            r.append("/repos");
            proof {
                assert(r@ =~= spec_create_repo_endpoint(owner@));
            }
            r
        },
    }
}

/// Builds the create-repo request body.
fn build_create_repo_body(params: &GithubRepoParams) -> (r: String)
    ensures
        r@ == spec_create_repo_body(params@),
{
    let mut r = "{\"name\":".to_owned();
    write_quoted(&mut r, params.name.as_str());
    r.append(",\"description\":");
    write_quoted(&mut r, params.description.as_str());
    r.append(",\"private\":false,\"has_issues\":true,\"has_projects\":true,\"has_wiki\":true}");
    proof {
        assert(r@ =~= spec_create_repo_body(params@));
    }
    r
}

/// Builds the repository-created event record.
fn build_repo_created_event(params: &GithubRepoParams, ts: &String) -> (r: String)
    ensures
        r@ == spec_repo_created_event(params@, ts@),
{
    let owner = params.organization.get_name();
    let mut key = owner.clone();
    key.append("/");
    key.append(params.name.as_str());
    let url = params.full_url();
    let mut r = "{\"context\":{\"version\":\"0.3.0\",\"id\":".to_owned();
    write_quoted(&mut r, key.as_str());
    r.append(
        ",\"source\":\"skootrs.github.creator\",\"type\":\"dev.cdevents.repository.created.0.1.1\",\"timestamp\":",
    );
    write_quoted(&mut r, ts.as_str());
    r.append("},\"subject\":{\"id\":");
    write_quoted(&mut r, key.as_str());
    r.append(",\"source\":\"skootrs.github.creator\",\"type\":\"repository\",\"content\":{\"name\":");
    write_quoted(&mut r, params.name.as_str());
    r.append(",\"url\":");
    write_quoted(&mut r, url.as_str());
    r.append("}}}");
    proof {
        assert(key@ =~= spec_user_name(params.organization@) + "/"@ + params.name@);
        assert(r@ =~= spec_repo_created_event(params@, ts@));
    }
    r
}

/// The repo driver run from the local machine: API calls through the
/// forge client, clones through the local client.
#[derive(Debug)]
pub struct LocalRepoService<C: ForgeClient, L: LocalClient> {
    pub client: C,
    pub local: L,
}

impl<C: ForgeClient, L: LocalClient> RepoService for LocalRepoService<C, L> {
    fn initialize(&self, params: RepoCreateParams) -> (r: Result<InitializedRepo, SkootError>) {
        match params {
            RepoCreateParams::Github(g) => {
                let endpoint = build_create_repo_endpoint(&g.organization);
                let body = build_create_repo_body(&g);
                self.client.post(&endpoint, &body)?;
                let now = utc_now_unix();
                let ts = format_rfc3339(now);
                let event = build_repo_created_event(&g, &ts);
                self.client.emit_event(&event);
                Ok(
                    InitializedRepo::Github(
                        InitializedGithubRepo { name: g.name, organization: g.organization },
                    ),
                )
            },
        }
    }

    fn get(&self, params: InitializedRepoGetParams) -> (r: Result<InitializedRepo, SkootError>) {
        let repo = parse_repo_url(params.repo_url.as_str())?;
        let (owner, name) = match &repo {
            InitializedRepo::Github(g) => (g.organization.get_name(), g.name.clone()),
        };
        let exists = self.client.repo_exists(&owner, &name)?;
        if !exists {
            return Err(SkootError::NotFound("repo does not exist".to_owned()));
        }
        Ok(repo)
    }

    fn clone_local(&self, initialized_repo: InitializedRepo, path: String) -> (r: Result<
        InitializedSource,
        SkootError,
    >) {
        let url = initialized_repo.full_url();
        let name = match &initialized_repo {
            InitializedRepo::Github(g) => g.name.clone(),
        };
        let mut args: Vec<String> = Vec::new();
        args.push("clone".to_owned());
        args.push(url);
        let out = self.local.run_git(&args, &path)?;
        if !out.success {
            return Err(SkootError::Subprocess(out.stderr));
        }
        let ghost p0 = path@;
        let mut full = path;
        full.append("/");
        full.append(name.as_str());
        proof {
            assert(full@ =~= spec_source_path(p0, spec_repo_name(initialized_repo@)));
        }
        Ok(InitializedSource { path: full })
    }

    fn clone_local_or_pull(&self, initialized_repo: InitializedRepo, path: String) -> (r: Result<
        InitializedSource,
        SkootError,
    >) {
        let mut status_args: Vec<String> = Vec::new();
        status_args.push("status".to_owned());
        let status = self.local.run_git(&status_args, &path)?;
        if status.success {
            let mut pull_args: Vec<String> = Vec::new();
            pull_args.push("pull".to_owned());
            let out = self.local.run_git(&pull_args, &path)?;
            if !out.success {
                return Err(SkootError::Subprocess(out.stderr));
            }
            Ok(InitializedSource { path })
        } else {
            self.clone_local(initialized_repo, path)
        }
    }

    fn fetch_file_content(&self, initialized_repo: &InitializedRepo, path: String) -> Result<
        String,
        SkootError,
    > {
        let (owner, name) = match initialized_repo {
            InitializedRepo::Github(g) => (g.organization.get_name(), g.name.clone()),
        };
        match self.client.fetch_content(&owner, &name, &path)? {
            Some(content) => Ok(content),
            None => Err(SkootError::NotFound("file not found on the default branch".to_owned())),
        }
    }

    fn archive(&self, initialized_repo: InitializedRepo) -> (r: Result<String, SkootError>) {
        let repo = match &initialized_repo {
            InitializedRepo::Github(g) => g,
        };
        let mut endpoint = "/repos/".to_owned();
        let owner = repo.organization.get_name();
        endpoint.append(owner.as_str());
        endpoint.append("/");
        endpoint.append(repo.name.as_str());
        let body = "{\"archived\":true}".to_owned();
        self.client.patch(&endpoint, &body)?;
        Ok(initialized_repo.full_url())
    }
}

} // verus!
