//! End-to-end tests of the services over canned ports: project creation,
//! re-fetch, facet content, outputs, and archiving.

use skootrs::facet::{
    CommonFacetCreateParams, FacetCreateParams, InitializedFacet, SupportedFacetType,
};
use skootrs::model::{
    EcosystemInitializeParams, FacetMapKey, GithubRepoParams, GithubUser, GoParams,
    InitializedEcosystem, InitializedGithubRepo, InitializedGo, InitializedRepo,
    InitializedSource, ProjectArchiveParams, ProjectCreateParams, ProjectGetParams,
    ProjectOutputType, ProjectOutputsListParams, ProjectReleaseParam, RepoCreateParams,
    SkootError, SourceInitializeParams,
};
use skootrs::ports::{ForgeClient, GithubAsset, GithubRelease, LocalClient, ToolOutput};
use skootrs::service::ecosystem::LocalEcosystemService;
use skootrs::service::facet::{
    generate_bundle_content, track_bundle, FacetSetParamsGenerator, LocalFacetService,
};
use skootrs::service::output::LocalOutputService;
use skootrs::service::project::{LocalProjectService, ProjectService};
use skootrs::service::repo::LocalRepoService;
use skootrs::service::source::{LocalSourceService, SourceService};
use skootrs::statestore::{InMemoryProjectReferenceCache, ProjectReferenceCache};
use skootrs::strutil::contains_str;
use sha2::Digest;

/// A forge that answers every call with a canned success.
struct CannedForge {
    manifest: Option<String>,
    assets: Vec<(String, String)>,
}

impl CannedForge {
    fn empty() -> Self {
        CannedForge { manifest: None, assets: Vec::new() }
    }
}

impl ForgeClient for CannedForge {
    fn post(&self, _endpoint: &String, _body: &String) -> Result<String, SkootError> {
        Ok("{}".to_string())
    }
    fn put_json(&self, _endpoint: &String, _body: &String) -> Result<String, SkootError> {
        Ok("{\"protected\": true}".to_string())
    }
    fn put_empty(&self, _endpoint: &String) -> Result<(), SkootError> {
        Ok(())
    }
    fn patch(&self, _endpoint: &String, _body: &String) -> Result<String, SkootError> {
        Ok("{\"archived\": true}".to_string())
    }
    fn repo_exists(&self, _owner: &String, _name: &String) -> Result<bool, SkootError> {
        Ok(true)
    }
    fn fetch_content(
        &self,
        _owner: &String,
        _name: &String,
        path: &String,
    ) -> Result<Option<String>, SkootError> {
        if path == ".skootrs" {
            Ok(self.manifest.clone())
        } else {
            Ok(Some(format!("content of {}", path)))
        }
    }
    fn fetch_release(
        &self,
        _owner: &String,
        _name: &String,
        _tag: &Option<String>,
    ) -> Result<GithubRelease, SkootError> {
        let mut assets = Vec::new();
        for (name, url) in &self.assets {
            assets.push(GithubAsset { name: name.clone(), browser_download_url: url.clone() });
        }
        Ok(GithubRelease { assets })
    }
    fn download(&self, url: &String) -> Result<String, SkootError> {
        Ok(format!("downloaded {}", url))
    }
    fn emit_event(&self, _event: &String) {}
}

/// A forge that must never be reached.
struct UnreachableForge;

impl ForgeClient for UnreachableForge {
    fn post(&self, _e: &String, _b: &String) -> Result<String, SkootError> {
        panic!("unexpected forge traffic");
    }
    fn put_json(&self, _e: &String, _b: &String) -> Result<String, SkootError> {
        panic!("unexpected forge traffic");
    }
    fn put_empty(&self, _e: &String) -> Result<(), SkootError> {
        panic!("unexpected forge traffic");
    }
    fn patch(&self, _e: &String, _b: &String) -> Result<String, SkootError> {
        panic!("unexpected forge traffic");
    }
    fn repo_exists(&self, _o: &String, _n: &String) -> Result<bool, SkootError> {
        panic!("unexpected forge traffic");
    }
    fn fetch_content(
        &self,
        _o: &String,
        _n: &String,
        _p: &String,
    ) -> Result<Option<String>, SkootError> {
        panic!("unexpected forge traffic");
    }
    fn fetch_release(
        &self,
        _o: &String,
        _n: &String,
        _t: &Option<String>,
    ) -> Result<GithubRelease, SkootError> {
        panic!("unexpected forge traffic");
    }
    fn download(&self, _u: &String) -> Result<String, SkootError> {
        panic!("unexpected forge traffic");
    }
    fn emit_event(&self, _e: &String) {}
}

/// A local machine where every tool run and file operation succeeds.
struct OkLocal;

impl LocalClient for OkLocal {
    fn run_git(&self, _args: &Vec<String>, _dir: &String) -> Result<ToolOutput, SkootError> {
        Ok(ToolOutput { success: true, stderr: String::new() })
    }
    fn run_tool(
        &self,
        _program: &String,
        _args: &Vec<String>,
        _dir: &String,
    ) -> Result<ToolOutput, SkootError> {
        Ok(ToolOutput { success: true, stderr: String::new() })
    }
    fn write_file(
        &self,
        _dir: &String,
        _rel: &String,
        _name: &String,
        _contents: &String,
    ) -> Result<(), SkootError> {
        Ok(())
    }
    fn read_file(&self, _dir: &String, _rel: &String, _name: &String) -> Result<String, SkootError> {
        Ok(String::new())
    }
}

fn project_service_with(
    forge_manifest: Option<String>,
    assets: Vec<(String, String)>,
) -> LocalProjectService<
    LocalRepoService<CannedForge, OkLocal>,
    LocalEcosystemService<OkLocal>,
    LocalSourceService<OkLocal>,
    LocalFacetService<LocalSourceService<OkLocal>, CannedForge>,
    LocalOutputService<CannedForge>,
> {
    LocalProjectService {
        repo_service: LocalRepoService {
            client: CannedForge { manifest: forge_manifest.clone(), assets: assets.clone() },
            local: OkLocal,
        },
        ecosystem_service: LocalEcosystemService { local: OkLocal },
        source_service: LocalSourceService { local: OkLocal },
        facet_service: LocalFacetService {
            source_service: LocalSourceService { local: OkLocal },
            client: CannedForge { manifest: forge_manifest.clone(), assets: assets.clone() },
        },
        output_service: LocalOutputService {
            client: CannedForge { manifest: forge_manifest, assets },
        },
    }
}

fn demo_params() -> ProjectCreateParams {
    ProjectCreateParams {
        name: "demo".to_string(),
        repo_params: RepoCreateParams::Github(GithubRepoParams {
            name: "demo".to_string(),
            description: "".to_string(),
            organization: GithubUser::User("alice".to_string()),
        }),
        ecosystem_params: EcosystemInitializeParams::Go(GoParams {
            name: "demo".to_string(),
            host: "github.com/alice".to_string(),
        }),
        source_params: SourceInitializeParams { parent_path: "/tmp".to_string() },
    }
}

fn expected_plan_types() -> Vec<SupportedFacetType> {
    vec![
        SupportedFacetType::Readme,
        SupportedFacetType::License,
        SupportedFacetType::Gitignore,
        SupportedFacetType::SecurityPolicy,
        SupportedFacetType::SecurityInsights,
        SupportedFacetType::SLSABuild,
        SupportedFacetType::DependencyUpdateTool,
        SupportedFacetType::Scorecard,
        SupportedFacetType::SAST,
        SupportedFacetType::DefaultSourceCode,
        SupportedFacetType::BranchProtection,
        SupportedFacetType::VulnerabilityReporting,
    ]
}

#[test]
fn create_go_project_in_user_account() {
    let service = project_service_with(None, Vec::new());
    let project = service.initialize(demo_params()).unwrap();
    assert_eq!(project.repo.full_url(), "https://github.com/alice/demo");
    assert_eq!(project.source.path, "/tmp/demo");
    match &project.ecosystem {
        InitializedEcosystem::Go(g) => {
            assert_eq!(g.module(), "github.com/alice/demo");
        }
        _ => panic!("wrong ecosystem"),
    }
    let expected = expected_plan_types();
    assert_eq!(project.facets.len(), expected.len());
    for (k, t) in project.facets.iter().zip(expected.iter()) {
        assert_eq!(k.0, FacetMapKey::Type(*t));
        assert_eq!(k.1.facet_type(), *t);
    }
    // the SLSA build facet tracks its three files
    let slsa = project
        .facets
        .iter()
        .find(|e| e.0 == FacetMapKey::Type(SupportedFacetType::SLSABuild))
        .unwrap();
    match &slsa.1 {
        InitializedFacet::SourceBundle(sb) => {
            let files = sb.source_files.as_ref().unwrap();
            let names: Vec<&str> = files.iter().map(|f| f.name.as_str()).collect();
            assert_eq!(names, vec!["releases.yml", "Dockerfile.goreleaser", ".goreleaser.yml"]);
        }
        _ => panic!("SLSA build facet should be a source bundle"),
    }
    // the vulnerability reporting facet records the literal Success
    let vuln = project
        .facets
        .iter()
        .find(|e| e.0 == FacetMapKey::Type(SupportedFacetType::VulnerabilityReporting))
        .unwrap();
    match &vuln.1 {
        InitializedFacet::APIBundle(ab) => {
            assert_eq!(ab.apis.len(), 1);
            assert_eq!(ab.apis[0].url, "/repos/alice/demo/private-vulnerability-reporting");
            assert_eq!(ab.apis[0].response, "Success");
        }
        _ => panic!("vulnerability reporting should be an API bundle"),
    }
}

#[test]
fn get_existing_project_equals_created_one() {
    let service = project_service_with(None, Vec::new());
    let project = service.initialize(demo_params()).unwrap();
    let manifest = skootrs::manifest::serialize_project(&project);
    let service2 = project_service_with(Some(manifest), Vec::new());
    let fetched = service2
        .get(ProjectGetParams { project_url: "https://github.com/alice/demo".to_string() })
        .unwrap();
    assert_eq!(fetched, project);
}

#[test]
fn unknown_host_rejected_without_forge_traffic() {
    let service = LocalProjectService {
        repo_service: LocalRepoService { client: UnreachableForge, local: OkLocal },
        ecosystem_service: LocalEcosystemService { local: OkLocal },
        source_service: LocalSourceService { local: OkLocal },
        facet_service: LocalFacetService {
            source_service: LocalSourceService { local: OkLocal },
            client: UnreachableForge,
        },
        output_service: LocalOutputService { client: UnreachableForge },
    };
    let result = service.get(ProjectGetParams {
        project_url: "https://gitlab.com/alice/demo".to_string(),
    });
    assert!(matches!(result, Err(SkootError::Unsupported(_))));
}

#[test]
fn fetch_security_insights_facet_content() {
    let params = skootrs::facet::SourceBundleFacetCreateParams {
        common: demo_common(),
        facet_type: SupportedFacetType::SecurityInsights,
    };
    let content = generate_bundle_content(&params, 1700000000).unwrap();
    assert_eq!(content.source_files_content.len(), 1);
    let yaml = &content.source_files_content[0].content;
    assert!(contains_str(yaml, "project-url: https://github.com/alice/demo\n"));
    assert!(contains_str(
        yaml,
        "security-policy: https://github.com/alice/demo/blob/main/SECURITY.md"
    ));
    assert!(contains_str(yaml, "schema-version: 1.0.0"));
    assert!(contains_str(yaml, "main-linux-amd64.spdx.sbom.json"));
}

fn demo_common() -> CommonFacetCreateParams {
    CommonFacetCreateParams {
        project_name: "demo".to_string(),
        source: InitializedSource { path: "/tmp/demo".to_string() },
        repo: InitializedRepo::Github(InitializedGithubRepo {
            name: "demo".to_string(),
            organization: GithubUser::User("alice".to_string()),
        }),
        ecosystem: InitializedEcosystem::Go(InitializedGo {
            name: "demo".to_string(),
            host: "github.com/alice".to_string(),
        }),
    }
}

#[test]
fn tracked_hash_is_sha256_of_written_content() {
    let params = skootrs::facet::SourceBundleFacetCreateParams {
        common: demo_common(),
        facet_type: SupportedFacetType::Readme,
    };
    let content = generate_bundle_content(&params, 1700000000).unwrap();
    let recorded = track_bundle(&content).unwrap();
    let files = recorded.source_files.unwrap();
    assert_eq!(files.len(), 1);
    assert_eq!(files[0].name, "README.md");
    assert_eq!(files[0].path, "./");
    let mut hasher = sha2::Sha256::new();
    hasher.update(content.source_files_content[0].content.as_bytes());
    let expected = format!("{:x}", hasher.finalize());
    assert_eq!(files[0].hash, expected);
}

#[test]
fn maven_with_build_pipeline_facet_is_unsupported() {
    let mut common = demo_common();
    common.ecosystem = InitializedEcosystem::Maven(skootrs::model::InitializedMaven {
        group_id: "com.example".to_string(),
        artifact_id: "demo".to_string(),
    });
    let params = skootrs::facet::SourceBundleFacetCreateParams {
        common,
        facet_type: SupportedFacetType::SLSABuild,
    };
    let result = generate_bundle_content(&params, 1700000000);
    assert!(matches!(result, Err(SkootError::Unsupported(_))));
}

#[test]
fn default_plan_is_two_phase() {
    let generator = FacetSetParamsGenerator {};
    let plan = generator.generate_default(&demo_common()).unwrap();
    assert_eq!(plan.facets_params.len(), 12);
    for (i, p) in plan.facets_params.iter().enumerate() {
        match p {
            FacetCreateParams::SourceBundle(_) => assert!(i < 10),
            FacetCreateParams::APIBundle(_) => assert!(i >= 10),
        }
    }
}

#[test]
fn list_outputs_latest_classifies_in_forge_order() {
    let assets = vec![
        ("app-linux-amd64.spdx.sbom.json".to_string(), "https://example/1".to_string()),
        ("app.intoto.jsonl".to_string(), "https://example/2".to_string()),
        ("app.tar.gz".to_string(), "https://example/3".to_string()),
    ];
    let service = project_service_with(None, assets);
    let project = service.initialize(demo_params()).unwrap();
    let refs = service
        .outputs_list(ProjectOutputsListParams {
            initialized_project: project,
            release: ProjectReleaseParam::Latest,
        })
        .unwrap();
    assert_eq!(refs.len(), 3);
    assert_eq!(refs[0].name, "app-linux-amd64.spdx.sbom.json");
    assert_eq!(refs[0].output_type, ProjectOutputType::SBOM);
    assert_eq!(refs[1].name, "app.intoto.jsonl");
    assert_eq!(refs[1].output_type, ProjectOutputType::InToto);
    assert_eq!(refs[2].name, "app.tar.gz");
    assert_eq!(refs[2].output_type, ProjectOutputType::Custom("Unknown".to_string()));
}

#[test]
fn archive_returns_full_url_and_cache_forgets_it() {
    let service = project_service_with(None, Vec::new());
    let project = service.initialize(demo_params()).unwrap();
    let url = project.repo.full_url();
    let archived = service
        .archive(ProjectArchiveParams { initialized_project: project })
        .unwrap();
    assert_eq!(archived, "https://github.com/alice/demo");

    let mut cache = InMemoryProjectReferenceCache::new("./skootcache".to_string());
    cache.set(url.clone());
    cache.set("https://github.com/alice/other".to_string());
    cache.set(url.clone());
    assert_eq!(cache.list().len(), 2);
    cache.delete(url.clone());
    assert!(!cache.contains(&url));
    let saved = cache.save_string();
    assert_eq!(saved, "[\"https://github.com/alice/other\"]");
}

#[test]
fn cache_file_round_trips() {
    let mut cache = InMemoryProjectReferenceCache::new("./skootcache".to_string());
    cache.set("https://github.com/alice/demo".to_string());
    cache.set("https://github.com/bob/tool".to_string());
    let saved = cache.save_string();
    let mut reloaded = InMemoryProjectReferenceCache::new("./skootcache".to_string());
    reloaded.load_string(&saved).unwrap();
    assert_eq!(reloaded.list(), cache.list());
    assert!(reloaded.load_string("not json").is_err());
}

#[test]
fn test_initialize_project() {
    // service-level collaborators stubbed out, as a cross-check of the
    // orchestrator alone
    let service = project_service_with(None, Vec::new());
    let project_params = ProjectCreateParams {
        name: "test".to_string(),
        repo_params: RepoCreateParams::Github(GithubRepoParams {
            name: "test".to_string(),
            description: "foobar".to_string(),
            organization: GithubUser::User("testuser".to_string()),
        }),
        ecosystem_params: EcosystemInitializeParams::Go(GoParams {
            name: "test".to_string(),
            host: "github.com".to_string(),
        }),
        source_params: SourceInitializeParams { parent_path: "test".to_string() },
    };
    let result = service.initialize(project_params);
    assert!(result.is_ok());
    let initialized_project = result.unwrap();
    assert!(initialized_project.repo.full_url() == "https://github.com/testuser/test");
    let module = match initialized_project.ecosystem {
        InitializedEcosystem::Go(g) => g,
        _ => panic!("Wrong ecosystem type"),
    };
    assert!(module.name == "test");
    assert!(initialized_project.source.path == "test/test");
    assert_eq!(initialized_project.facets.len(), 12);
}

#[test]
fn get_facet_with_content_fetches_every_tracked_file() {
    let service = project_service_with(None, Vec::new());
    let project = service.initialize(demo_params()).unwrap();
    let manifest = skootrs::manifest::serialize_project(&project);
    let service2 = project_service_with(Some(manifest), Vec::new());
    let facet = service2
        .get_facet_with_content(skootrs::model::FacetGetParams {
            project_get_params: ProjectGetParams {
                project_url: "https://github.com/alice/demo".to_string(),
            },
            facet_map_key: FacetMapKey::Type(SupportedFacetType::SecurityInsights),
        })
        .unwrap();
    match facet {
        InitializedFacet::SourceBundle(sb) => {
            assert!(sb.source_files.is_none());
            let contents = sb.source_files_content.unwrap();
            assert_eq!(contents.len(), 1);
            assert_eq!(contents[0].0.name, "SECURITY-INSIGHTS.yml");
            // the leading ./ of the tracked path is stripped before the fetch
            assert_eq!(contents[0].1, "content of SECURITY-INSIGHTS.yml");
        }
        _ => panic!("expected a source bundle"),
    }
    let missing = service2.get_facet_with_content(skootrs::model::FacetGetParams {
        project_get_params: ProjectGetParams {
            project_url: "https://github.com/alice/demo".to_string(),
        },
        facet_map_key: FacetMapKey::Name("absent".to_string()),
    });
    assert!(matches!(missing, Err(SkootError::NotFound(_))));
}

#[test]
fn license_is_stamped_with_the_year_of_the_clock() {
    // 1700000000 seconds after the epoch falls in November 2023
    let params = skootrs::facet::SourceBundleFacetCreateParams {
        common: demo_common(),
        facet_type: SupportedFacetType::License,
    };
    let content = generate_bundle_content(&params, 1700000000).unwrap();
    assert_eq!(content.source_files_content.len(), 1);
    assert_eq!(content.source_files_content[0].name, "LICENSE");
    assert!(contains_str(&content.source_files_content[0].content, "Copyright 2023 demo"));
}

#[test]
fn facet_map_key_round_trip_witnesses() {
    let k = FacetMapKey::Type(SupportedFacetType::Scorecard);
    let k2 = skootrs::model::facet_map_key_round_trip(&k).unwrap();
    assert_eq!(k2, k);
    let s = skootrs::model::facet_map_key_string_round_trip("Name: custom").unwrap();
    assert_eq!(s, "Name: custom");
}

/// A local machine where git always fails.
struct FailingLocal;

impl LocalClient for FailingLocal {
    fn run_git(&self, _args: &Vec<String>, _dir: &String) -> Result<ToolOutput, SkootError> {
        Ok(ToolOutput { success: false, stderr: "fatal: not a git repository".to_string() })
    }
    fn run_tool(
        &self,
        _program: &String,
        _args: &Vec<String>,
        _dir: &String,
    ) -> Result<ToolOutput, SkootError> {
        Ok(ToolOutput { success: false, stderr: "tool failed".to_string() })
    }
    fn write_file(
        &self,
        _dir: &String,
        _rel: &String,
        _name: &String,
        _contents: &String,
    ) -> Result<(), SkootError> {
        Ok(())
    }
    fn read_file(&self, _dir: &String, _rel: &String, _name: &String) -> Result<String, SkootError> {
        Ok(String::new())
    }
}

#[test]
fn failing_clone_surfaces_as_subprocess_error() {
    let service = LocalSourceService { local: FailingLocal };
    let result = service.initialize(
        SourceInitializeParams { parent_path: "/tmp".to_string() },
        InitializedRepo::Github(InitializedGithubRepo {
            name: "demo".to_string(),
            organization: GithubUser::User("alice".to_string()),
        }),
    );
    match result {
        Err(SkootError::Subprocess(stderr)) => assert!(contains_str(&stderr, "not a git repository")),
        other => panic!("expected a subprocess error, got {:?}", other),
    }
}

#[test]
fn cache_rejects_non_canonical_file() {
    let mut cache = InMemoryProjectReferenceCache::new("./skootcache".to_string());
    // \u0041 decodes to A, but the canonical rendering writes A itself
    assert!(matches!(
        cache.load_string("[\"\\u0041\"]"),
        Err(SkootError::Decoding(_))
    ));
    assert!(cache.load_string("[\"A\"]").is_ok());
    assert_eq!(cache.list(), vec!["A".to_string()]);
}
