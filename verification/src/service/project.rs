//! The project orchestrator: composes the repo, source, ecosystem, facet
//! and output collaborators, in fixed order, into whole-project
//! operations.

use vstd::prelude::*;

use crate::facet::{
    spec_facet_type, CommonFacetCreateParams, InitializedFacet, SourceBundleFacet, SourceFile,
};
use crate::manifest::{deserialize_project, wf_facet, wf_project};
use crate::model::{
    spec_repo_full_url, spec_repo_name, spec_source_path, spec_url_shape, FacetGetParams,
    FacetMapKey, FacetMapKeyView, InitializedProject, InitializedProjectView,
    InitializedRepoGetParams, InitializedSourceView, ProjectArchiveParams, ProjectCreateParams,
    ProjectGetParams, ProjectOutput, ProjectOutputParams, ProjectOutputReference,
    ProjectOutputsListParams, SkootError,
};
use crate::service::ecosystem::{spec_initialized_eco, EcosystemService};
use crate::service::facet::{
    spec_default_plan, spec_params_facet_type, FacetSetParamsGenerator, RootFacetService,
};
use crate::service::output::OutputService;
use crate::service::repo::{spec_created_repo, RepoService};
use crate::service::source::SourceService;

verus! {

/// The facet creation context that initializing a project assembles: the
/// project's name, and the repo, working copy and ecosystem records the
/// earlier pipeline steps produce.
pub open spec fn spec_create_common(params: ProjectCreateParams) -> crate::facet::CommonFacetCreateParamsView {
    crate::facet::CommonFacetCreateParamsView {
        project_name: params.name@,
        source: InitializedSourceView {
            path: spec_source_path(
                params.source_params.parent_path@,
                spec_repo_name(spec_created_repo(params.repo_params@)),
            ),
        },
        repo: spec_created_repo(params.repo_params@),
        ecosystem: spec_initialized_eco(params.ecosystem_params@),
    }
}

/// The contract of the orchestrator.
pub trait ProjectService {
    /// Creates a whole project: repo, clone, ecosystem, the source bundle
    /// phase, one commit-and-push, then the API bundle phase.  On success
    /// the project mirrors the parameters, and its facet map holds one
    /// entry per facet of the default plan, keyed by type, in plan
    /// order.
    fn initialize(&self, params: ProjectCreateParams) -> (r: Result<
        InitializedProject,
        SkootError,
    >)
        ensures
            r matches Ok(p) ==> {
                &&& p.repo@ == spec_created_repo(params.repo_params@)
                &&& p.source.path@ == spec_source_path(
                    params.source_params.parent_path@,
                    spec_repo_name(spec_created_repo(params.repo_params@)),
                )
                &&& p.ecosystem@ == spec_initialized_eco(params.ecosystem_params@)
                &&& p.facets@.len() == spec_default_plan(spec_create_common(params)).len()
                &&& forall|k: int|
                    0 <= k < p.facets@.len() ==> {
                        let t = spec_params_facet_type(
                            spec_default_plan(spec_create_common(params))[k],
                        );
                        &&& (#[trigger] p.facets@[k]).0@ == FacetMapKeyView::Type(t)
                        &&& spec_facet_type(p.facets@[k].1@) == t
                        &&& wf_facet(p.facets@[k].1@)
                    }
                &&& wf_project(p@)
            },
    ;

    /// Fetches an existing project: resolve the URL, fetch `.skootrs`
    /// from the default branch, deserialize.  A URL whose host is not
    /// `github.com` is rejected as unsupported before any forge traffic.
    fn get(&self, params: ProjectGetParams) -> (r: Result<InitializedProject, SkootError>)
        ensures
            forall|sch: Seq<char>, host: Seq<char>, owner: Seq<char>, name: Seq<char>|
                #[trigger] spec_url_shape(params.project_url@, sch, host, owner, name) && host
                    != "github.com"@ ==> (r matches Err(e) && e is Unsupported),
            r matches Ok(p) ==> wf_project(p@),
    ;

    /// Looks a facet up by key in the fetched project; for a source
    /// bundle, fetches the content of every tracked file.
    fn get_facet_with_content(&self, params: FacetGetParams) -> (r: Result<
        InitializedFacet,
        SkootError,
    >)
        ensures
            r matches Ok(f) ==> match f@ {
                crate::facet::InitializedFacetView::SourceBundle(sb) => sb.source_files is None
                    && sb.source_files_content is Some,
                crate::facet::InitializedFacetView::APIBundle(ab) => true,
            },
    ;

    /// The keys of the fetched project's facets.
    fn list_facets(&self, params: ProjectGetParams) -> Result<Vec<FacetMapKey>, SkootError>;

    /// Archives the project's repo; on success returns its full URL.
    fn archive(&self, params: ProjectArchiveParams) -> (r: Result<String, SkootError>)
        ensures
            r matches Ok(u) ==> u@ == spec_repo_full_url(params.initialized_project.repo@),
    ;

    /// Lists the project's release outputs.
    fn outputs_list(&self, params: ProjectOutputsListParams) -> Result<
        Vec<ProjectOutputReference>,
        SkootError,
    >;

    /// Fetches one release output by name.
    fn output_get(&self, params: ProjectOutputParams) -> Result<ProjectOutput, SkootError>;
}

/// Equality of facet map keys, by value.
fn facet_map_key_eq(a: &FacetMapKey, b: &FacetMapKey) -> (r: bool)
    ensures
        r == (a@ == b@),
{
    match (a, b) {
        (FacetMapKey::Name(x), FacetMapKey::Name(y)) => crate::strutil::str_eq(
            x.as_str(),
            y.as_str(),
        ),
        (FacetMapKey::Type(x), FacetMapKey::Type(y)) => x == y,
        _ => false,
    }
}

/// Finds the first entry stored under the key; none exactly when no
/// entry carries the key.
fn find_facet(facets: &Vec<(FacetMapKey, InitializedFacet)>, key: &FacetMapKey) -> (r: Option<
    usize,
>)
    ensures
        r matches Some(i) ==> i < facets@.len() && (facets@[i as int].0)@ == key@,
        r is None ==> forall|k: int| 0 <= k < facets@.len() ==> (#[trigger] facets@[k].0)@ != key@,
{
    let mut i: usize = 0;
    while i < facets.len()
        invariant
            i <= facets@.len(),
            forall|k: int| 0 <= k < i ==> (#[trigger] facets@[k].0)@ != key@,
        decreases facets.len() - i,
    {
        if facet_map_key_eq(&facets[i].0, key) {
            return Some(i);
        }
        i = i + 1;
    }
    None
}

/// The repository path a tracked source file is fetched from: its path
/// joined with its name, with any leading `./` stripped.
pub open spec fn spec_fetch_path(path: Seq<char>, name: Seq<char>) -> Seq<char> {
    let joined = if path.len() > 0 && path[path.len() - 1] == '/' {
        path + name
    } else {
        path + "/"@ + name
    };
    if joined.len() >= 2 && joined[0] == '.' && joined[1] == '/' {
        joined.skip(2)
    } else {
        joined
    }
}

/// Joins a tracked file's path and name into the repository path it is
/// fetched from.
fn build_fetch_path(f: &SourceFile) -> (r: String)
    ensures
        r@ == spec_fetch_path(f.path@, f.name@),
{
    let path_chars = crate::strutil::str_to_chars(f.path.as_str());
    let mut joined = f.path.clone();
    if path_chars.len() > 0 && path_chars[path_chars.len() - 1] == '/' {
        joined.append(f.name.as_str());
    } else {
        joined.append("/");
        joined.append(f.name.as_str());
    }
    let joined_chars = crate::strutil::str_to_chars(joined.as_str());
    if joined_chars.len() >= 2 && joined_chars[0] == '.' && joined_chars[1] == '/' {
        let stripped = crate::strutil::slice_chars(&joined_chars, 2, joined_chars.len());
        let r = crate::strutil::chars_to_string(&stripped);
        proof {
            assert(r@ =~= spec_fetch_path(f.path@, f.name@));
        }
        r
    } else {
        proof {
            assert(joined@ =~= spec_fetch_path(f.path@, f.name@));
        }
        joined
    }
}

/// The keys of a project's facet map, in stored order.
pub fn facet_keys(project: &InitializedProject) -> (r: Vec<FacetMapKey>)
    ensures
        r@.len() == project.facets@.len(),
        forall|k: int| 0 <= k < r@.len() ==> (#[trigger] r@[k])@ == project@.facets[k].0,
{
    let mut keys: Vec<FacetMapKey> = Vec::new();
    let mut k: usize = 0;
    while k < project.facets.len()
        invariant
            k <= project.facets@.len(),
            keys@.len() == k,
            forall|j: int| 0 <= j < k ==> (#[trigger] keys@[j])@ == project@.facets[j].0,
        decreases project.facets.len() - k,
    {
        keys.push(project.facets[k].0.clone());
        k = k + 1;
    }
    keys
}

/// The orchestrator run on the local machine, over the five
/// collaborating services.
#[derive(Debug)]
pub struct LocalProjectService<
    RS: RepoService,
    ES: EcosystemService,
    SS: SourceService,
    FS: RootFacetService,
    OS: OutputService,
> {
    pub repo_service: RS,
    pub ecosystem_service: ES,
    pub source_service: SS,
    pub facet_service: FS,
    pub output_service: OS,
}

impl<
    RS: RepoService,
    ES: EcosystemService,
    SS: SourceService,
    FS: RootFacetService,
    OS: OutputService,
> ProjectService for LocalProjectService<RS, ES, SS, FS, OS> {
    fn initialize(&self, params: ProjectCreateParams) -> (r: Result<
        InitializedProject,
        SkootError,
    >) {
        let initialized_repo = self.repo_service.initialize(params.repo_params.clone())?;
        let initialized_source = self.source_service.initialize(
            params.source_params.clone(),
            initialized_repo.clone(),
        )?;
        let initialized_ecosystem = self.ecosystem_service.initialize(
            params.ecosystem_params.clone(),
            initialized_source.clone(),
        )?;
        let facet_set_params_generator = FacetSetParamsGenerator {};
        let common_params = CommonFacetCreateParams {
            project_name: params.name.clone(),
            source: initialized_source.clone(),
            repo: initialized_repo.clone(),
            ecosystem: initialized_ecosystem.clone(),
        };
        proof {
            assert(common_params@ == spec_create_common(params));
        }
        let source_facet_set_params =
            facet_set_params_generator.generate_default_source_bundle_facet_params(
            &common_params,
        )?;
        let api_facet_set_params = facet_set_params_generator.generate_default_api_bundle(
            &common_params,
        )?;
        let ghost plan = spec_default_plan(common_params@);
        let source_facets = self.facet_service.initialize_all(source_facet_set_params)?;
        self.source_service.commit_and_push_changes(
            initialized_source.clone(),
            "Initialized project".to_owned(),
        )?;
        let api_facets = self.facet_service.initialize_all(api_facet_set_params)?;
        let ghost n_source = source_facets@.len();
        let mut facets: Vec<(FacetMapKey, InitializedFacet)> = Vec::new();
        let mut src = source_facets;
        while src.len() > 0
            invariant
                facets@.len() + src@.len() == n_source,
                n_source <= plan.len(),
                forall|j: int|
                    0 <= j < facets@.len() ==> {
                        let t = spec_params_facet_type(plan[j]);
                        &&& (#[trigger] facets@[j]).0@ == FacetMapKeyView::Type(t)
                        &&& spec_facet_type(facets@[j].1@) == t
                        &&& wf_facet(facets@[j].1@)
                    },
                forall|j: int|
                    0 <= j < src@.len() ==> {
                        let t = spec_params_facet_type(plan[facets@.len() + j]);
                        &&& spec_facet_type((#[trigger] src@[j])@) == t
                        &&& wf_facet(src@[j]@)
                    },
            decreases src.len(),
        {
            let f = src.remove(0);
            let t = f.facet_type();
            facets.push((FacetMapKey::Type(t), f));
        }
        let ghost n_api = api_facets@.len();
        let mut api = api_facets;
        while api.len() > 0
            invariant
                facets@.len() + api@.len() == n_source + n_api,
                n_source + n_api == plan.len(),
                forall|j: int|
                    0 <= j < facets@.len() ==> {
                        let t = spec_params_facet_type(plan[j]);
                        &&& (#[trigger] facets@[j]).0@ == FacetMapKeyView::Type(t)
                        &&& spec_facet_type(facets@[j].1@) == t
                        &&& wf_facet(facets@[j].1@)
                    },
                forall|j: int|
                    0 <= j < api@.len() ==> {
                        let t = spec_params_facet_type(plan[facets@.len() + j]);
                        &&& spec_facet_type((#[trigger] api@[j])@) == t
                        &&& wf_facet(api@[j]@)
                    },
            decreases api.len(),
        {
            let f = api.remove(0);
            let t = f.facet_type();
            facets.push((FacetMapKey::Type(t), f));
        }
        let result = InitializedProject {
            repo: initialized_repo,
            ecosystem: initialized_ecosystem,
            source: initialized_source,
            facets,
        };
        proof {
            assert(wf_project(result@)) by {
                assert forall|k: int|
                    0 <= k < result@.facets.len() implies crate::model::wf_fmk(
                    #[trigger] result@.facets[k].0,
                ) && wf_facet(result@.facets[k].1) by {
                    assert(result@.facets[k] == (result.facets@[k].0@, result.facets@[k].1@));
                }
            }
        }
        Ok(result)
    }

    fn get(&self, params: ProjectGetParams) -> (r: Result<InitializedProject, SkootError>) {
        let get_repo_params = InitializedRepoGetParams { repo_url: params.project_url.clone() };
        let ghost ru = get_repo_params.repo_url@;
        let repo_result = self.repo_service.get(get_repo_params);
        proof {
            assert forall|sch: Seq<char>, host: Seq<char>, owner: Seq<char>, name: Seq<char>|
                #[trigger] spec_url_shape(params.project_url@, sch, host, owner, name) && host
                    != "github.com"@ implies (repo_result matches Err(e) && e is Unsupported) by {
                assert(spec_url_shape(ru, sch, host, owner, name));
            }
        }
        let repo = repo_result?;
        let skootrs_file = self.repo_service.fetch_file_content(&repo, ".skootrs".to_owned())?;
        deserialize_project(skootrs_file.as_str())
    }

    fn get_facet_with_content(&self, params: FacetGetParams) -> (r: Result<
        InitializedFacet,
        SkootError,
    >) {
        let initialized_project = self.get(params.project_get_params.clone())?;
        let repo = initialized_project.repo;
        let mut entries = initialized_project.facets;
        let idx = match find_facet(&entries, &params.facet_map_key) {
            Some(i) => i,
            None => {
                return Err(SkootError::NotFound("facet not found".to_owned()));
            },
        };
        let facet = entries.remove(idx).1;
        match facet {
            InitializedFacet::SourceBundle(s) => {
                match s.source_files {
                    Some(source_files) => {
                        let mut contents: Vec<(SourceFile, String)> = Vec::new();
                        let mut files = source_files;
                        while files.len() > 0
                            decreases files.len(),
                        {
                            let f = files.remove(0);
                            let fetch_path = build_fetch_path(&f);
                            let content = self.repo_service.fetch_file_content(
                                &repo,
                                fetch_path,
                            )?;
                            contents.push((f, content));
                        }
                        Ok(
                            InitializedFacet::SourceBundle(
                                SourceBundleFacet {
                                    source_files: None,
                                    facet_type: s.facet_type,
                                    source_files_content: Some(contents),
                                },
                            ),
                        )
                    },
                    None => Err(SkootError::NotFound("no source files found".to_owned())),
                }
            },
            InitializedFacet::APIBundle(a) => Ok(InitializedFacet::APIBundle(a)),
        }
    }

    fn list_facets(&self, params: ProjectGetParams) -> Result<Vec<FacetMapKey>, SkootError> {
        let project = self.get(params)?;
        Ok(facet_keys(&project))
    }

    fn archive(&self, params: ProjectArchiveParams) -> (r: Result<String, SkootError>) {
        self.repo_service.archive(params.initialized_project.repo)
    }

    fn outputs_list(&self, params: ProjectOutputsListParams) -> Result<
        Vec<ProjectOutputReference>,
        SkootError,
    > {
        self.output_service.list(params)
    }

    fn output_get(&self, params: ProjectOutputParams) -> Result<ProjectOutput, SkootError> {
        self.output_service.get(params)
    }
}

} // verus!
