//! The facet engine: the catalogue of content generators, the application
//! of source bundles (write, then hash) and API bundles (call, then
//! record), and the generator of the default facet plan.

use vstd::prelude::*;

use crate::facet::{
    views_of_files, APIBundleFacet, APIBundleFacetParams, APIContent, CommonFacetCreateParams,
    CommonFacetCreateParamsView,
    FacetCreateParams, FacetCreateParamsView, FacetSetCreateParams, InitializedFacet,
    SourceBundleFacet, SourceBundleFacetCreateParams, SourceBundleFacetCreateParamsView,
    SourceFile, SourceFileContent, SourceFileContentView, SupportedFacetType, spec_facet_type,
};
use crate::hash::{sha256_hex, spec_text_hash};
use crate::manifest::wf_facet;
use crate::model::{
    spec_go_module, spec_repo_full_url, spec_user_name, InitializedEcosystem,
    InitializedEcosystemView, InitializedGithubRepo, InitializedRepo, SkootError,
};
use crate::ports::ForgeClient;
use crate::service::source::SourceService;
use crate::strutil::{dec_i64, find_char, spec_dec_int, str_to_chars};
use crate::time::{format_rfc3339, spec_rfc3339, spec_utc_year, utc_now_unix, utc_year_of};

verus! {

/// The views of a sequence of transient file contents.
pub open spec fn views_of_file_contents(cs: Seq<SourceFileContent>) -> Seq<SourceFileContentView> {
    cs.map_values(|c: SourceFileContent| c@)
}

// ------------------------------------------------------------------
// The rendered contents of each facet's files.
// ------------------------------------------------------------------

/// The README text for a project.
pub open spec fn spec_readme_content(name: Seq<char>) -> Seq<char> {
    "# "@ + name + "\n\nThis project was created with a secure-by-default project scaffold.\n"@
}

/// The LICENSE text for a project, stamped with the current year.
pub open spec fn spec_license_content(name: Seq<char>, year: int) -> Seq<char> {
    "Copyright "@ + spec_dec_int(year) + " "@ + name
        + "\n\nLicensed under the Apache License, Version 2.0.\n"@
}

/// The security policy text.
pub open spec fn spec_security_policy_content() -> Seq<char> {
    "# Security Policy\n\nReport suspected vulnerabilities privately through the repository's security advisories page.\n"@
}

/// The Scorecard workflow.
pub open spec fn spec_scorecard_content() -> Seq<char> {
    "name: scorecard\non:\n  schedule:\n    - cron: '30 1 * * 6'\npermissions: read-all\njobs:\n  analysis:\n    uses: ossf/scorecard-action/.github/workflows/scorecard-analysis.yml@main\n"@
}

/// The CodeQL workflow.
pub open spec fn spec_sast_content() -> Seq<char> {
    "name: codeql\non:\n  push: {}\n  pull_request: {}\npermissions: read-all\njobs:\n  analyze:\n    uses: github/codeql-action/.github/workflows/codeql.yml@main\n"@
}

/// The Go gitignore.
pub open spec fn spec_gitignore_content() -> Seq<char> {
    "/bin/\n/dist/\n*.exe\n*.out\n*.test\n"@
}

/// The dependabot configuration for Go modules.
pub open spec fn spec_dependabot_content() -> Seq<char> {
    "version: 2\nupdates:\n  - package-ecosystem: gomod\n    directory: /\n    schedule:\n      interval: daily\n"@
}

/// The CIFuzz workflow for a Go project.
pub open spec fn spec_fuzzing_content(name: Seq<char>) -> Seq<char> {
    "name: cifuzz\non: [pull_request]\njobs:\n  fuzzing:\n    runs-on: ubuntu-latest\n    env:\n      PROJECT: "@
        + name + "\n      LANGUAGE: go\n"@
}

/// The boilerplate Go entry file.
pub open spec fn spec_default_source_code_content() -> Seq<char> {
    "package main\n\nimport \"fmt\"\n\nfunc main() {\n\tfmt.Println(\"Hello, world!\")\n}\n"@
}

/// The release workflow driving goreleaser.
pub open spec fn spec_releases_workflow_content() -> Seq<char> {
    "name: releases\non:\n  push:\n    tags:\n      - 'v*'\npermissions: read-all\njobs:\n  release:\n    runs-on: ubuntu-latest\n    steps:\n      - uses: goreleaser/goreleaser-action@v5\n        with:\n          args: release --clean\n"@
}

/// The goreleaser build container file.
pub open spec fn spec_dockerfile_content(name: Seq<char>) -> Seq<char> {
    "FROM cgr.dev/chainguard/static\nCOPY "@ + name + " /usr/local/bin/"@ + name
        + "\nENTRYPOINT [\"/usr/local/bin/"@ + name + "\"]\n"@
}

/// The goreleaser configuration.
pub open spec fn spec_goreleaser_content(name: Seq<char>, module: Seq<char>) -> Seq<char> {
    "project_name: "@ + name + "\nbuilds:\n  - main: .\n    binary: main\n    goos: [linux, windows]\n    goarch: [amd64, arm, arm64]\nsboms:\n  - artifacts: binary\nmodule: "@
        + module + "\n"@
}

/// One SPDX reference in the SECURITY-INSIGHTS document, keyed to a
/// goreleaser output name.
pub open spec fn spec_sbom_entry(url: Seq<char>, suffix: Seq<char>) -> Seq<char> {
    "    - sbom-file: "@ + url + "/releases/latest/download/main"@ + suffix
        + ".spdx.sbom.json\n      sbom-format: SPDX\n      sbom-url: https://spdx.github.io/spdx-spec/v2.3/\n      sbom-creation: Created by goreleaser\n"@
}

/// The SECURITY-INSIGHTS 1.0.0 document: every field is derived from the
/// project's URL and the current time.
pub open spec fn spec_security_insights_content(
    url: Seq<char>,
    now_s: Seq<char>,
    exp_s: Seq<char>,
) -> Seq<char> {
    "header:\n  schema-version: 1.0.0\n  expiration-date: "@ + exp_s + "\n  last-reviewed: "@
        + now_s + "\n  last-updated: "@ + now_s + "\n  project-url: "@ + url + "\n  license: "@
        + url + "/blob/main/LICENSE\nproject-lifecycle:\n  status: active\n  bug-fixes-only: false\ncontribution-policy:\n  accepts-pull-requests: true\n  accepts-automated-pull-requests: true\ndependencies:\n  dependencies-lists:\n    - "@
        + url + "/blob/main/go.mod\n  sbom:\n"@ + spec_sbom_entry(url, "-linux-amd64"@)
        + spec_sbom_entry(url, "-linux-arm"@) + spec_sbom_entry(url, "-linux-arm64"@)
        + spec_sbom_entry(url, "-windows-amd64.exe"@) + spec_sbom_entry(url, ""@)
        + "vulnerability-reporting:\n  accepts-vulnerability-reports: true\n  security-policy: "@
        + url + "/blob/main/SECURITY.md\n"@
}

/// The module string of the project's ecosystem, for goreleaser; empty
/// for ecosystems without one.
pub open spec fn spec_eco_module(e: InitializedEcosystemView) -> Seq<char> {
    match e {
        InitializedEcosystemView::Go(g) => spec_go_module(g.host, g.name),
        InitializedEcosystemView::Maven(m) => Seq::empty(),
    }
}

/// Whether the catalogue supports generating this facet type for this
/// ecosystem as a source bundle.
pub open spec fn spec_bundle_supported(
    t: SupportedFacetType,
    e: InitializedEcosystemView,
) -> bool {
    match t {
        SupportedFacetType::Readme => true,
        SupportedFacetType::License => true,
        SupportedFacetType::SecurityPolicy => true,
        SupportedFacetType::Scorecard => true,
        SupportedFacetType::SAST => true,
        SupportedFacetType::SecurityInsights => true,
        SupportedFacetType::Gitignore => e is Go,
        SupportedFacetType::SLSABuild => e is Go,
        SupportedFacetType::DependencyUpdateTool => e is Go,
        SupportedFacetType::Fuzzing => e is Go,
        SupportedFacetType::DefaultSourceCode => e is Go,
        _ => false,
    }
}

/// The files a source bundle facet produces: their names, their paths
/// relative to the source root, and their full contents.
pub open spec fn spec_bundle_contents(
    p: SourceBundleFacetCreateParamsView,
    now: int,
) -> Seq<SourceFileContentView> {
    let name = p.common.project_name;
    let url = spec_repo_full_url(p.common.repo);
    match p.facet_type {
        SupportedFacetType::Readme => seq![
            SourceFileContentView {
                name: "README.md"@,
                path: "./"@,
                content: spec_readme_content(name),
            },
        ],
        SupportedFacetType::License => seq![
            SourceFileContentView {
                name: "LICENSE"@,
                path: "./"@,
                content: spec_license_content(name, spec_utc_year(now)),
            },
        ],
        SupportedFacetType::SecurityPolicy => seq![
            SourceFileContentView {
                name: "SECURITY.md"@,
                path: "./"@,
                content: spec_security_policy_content(),
            },
        ],
        SupportedFacetType::Scorecard => seq![
            SourceFileContentView {
                name: "scorecard.yml"@,
                path: "./.github/workflows"@,
                content: spec_scorecard_content(),
            },
        ],
        SupportedFacetType::SAST => seq![
            SourceFileContentView {
                name: "codeql.yml"@,
                path: "./.github/workflows"@,
                content: spec_sast_content(),
            },
        ],
        SupportedFacetType::SecurityInsights => seq![
            SourceFileContentView {
                name: "SECURITY-INSIGHTS.yml"@,
                path: "./"@,
                content: spec_security_insights_content(
                    url,
                    spec_rfc3339(now),
                    spec_rfc3339(now + 31536000),
                ),
            },
        ],
        SupportedFacetType::Gitignore => seq![
            SourceFileContentView {
                name: ".gitignore"@,
                path: "./"@,
                content: spec_gitignore_content(),
            },
        ],
        SupportedFacetType::SLSABuild => seq![
            SourceFileContentView {
                name: "releases.yml"@,
                path: ".github/workflows/"@,
                content: spec_releases_workflow_content(),
            },
            SourceFileContentView {
                name: "Dockerfile.goreleaser"@,
                path: "./"@,
                content: spec_dockerfile_content(name),
            },
            SourceFileContentView {
                name: ".goreleaser.yml"@,
                path: "./"@,
                content: spec_goreleaser_content(name, spec_eco_module(p.common.ecosystem)),
            },
        ],
        SupportedFacetType::DependencyUpdateTool => seq![
            SourceFileContentView {
                name: "dependabot.yml"@,
                path: ".github/"@,
                content: spec_dependabot_content(),
            },
        ],
        SupportedFacetType::Fuzzing => seq![
            SourceFileContentView {
                name: "cifuzz.yml"@,
                path: ".github/workflows/"@,
                content: spec_fuzzing_content(name),
            },
        ],
        SupportedFacetType::DefaultSourceCode => seq![
            SourceFileContentView {
                name: "main.go"@,
                path: "./"@,
                content: spec_default_source_code_content(),
            },
        ],
        _ => Seq::empty(),
    }
}

/// The content of a set of source files, as produced by a generator.
pub struct SourceBundleContent {
    pub source_files_content: Vec<SourceFileContent>,
    pub facet_type: SupportedFacetType,
}

/// Builds one single-file bundle.
fn one_file(
    name: &str,
    path: &str,
    content: String,
    facet_type: SupportedFacetType,
) -> (r: SourceBundleContent)
    ensures
        r.facet_type == facet_type,
        views_of_file_contents(r.source_files_content@) =~= seq![
            SourceFileContentView { name: name@, path: path@, content: content@ },
        ],
{
    let mut files: Vec<SourceFileContent> = Vec::new();
    files.push(
        SourceFileContent { name: name.to_owned(), path: path.to_owned(), content },
    );
    SourceBundleContent { source_files_content: files, facet_type }
}

/// Generates the content of the facets that are the same for every
/// ecosystem: README, LICENSE, security policy, Scorecard, CodeQL, and
/// SECURITY-INSIGHTS.
struct DefaultSourceBundleContentHandler {}

impl DefaultSourceBundleContentHandler {
    fn generate_readme_content(&self, params: &SourceBundleFacetCreateParams) -> (r:
        SourceBundleContent)
        ensures
            r.facet_type == SupportedFacetType::Readme,
            views_of_file_contents(r.source_files_content@) == spec_bundle_contents(
                SourceBundleFacetCreateParamsView {
                    common: params.common@,
                    facet_type: SupportedFacetType::Readme,
                },
                0,
            ),
    {
        let mut content = "# ".to_owned();
        content.append(params.common.project_name.as_str());
        content.append("\n\nThis project was created with a secure-by-default project scaffold.\n");
        proof {
            assert(content@ =~= spec_readme_content(params.common.project_name@));
        }
        one_file("README.md", "./", content, SupportedFacetType::Readme)
    }

    fn generate_license_content(&self, params: &SourceBundleFacetCreateParams, now: i64) -> (r:
        SourceBundleContent)
        ensures
            r.facet_type == SupportedFacetType::License,
            views_of_file_contents(r.source_files_content@) == spec_bundle_contents(
                SourceBundleFacetCreateParamsView {
                    common: params.common@,
                    facet_type: SupportedFacetType::License,
                },
                now as int,
            ),
    {
        let year = utc_year_of(now);
        let mut content = "Copyright ".to_owned();
        let digits = dec_i64(year);
        content.append(digits.as_str());
        content.append(" ");
        content.append(params.common.project_name.as_str());
        content.append("\n\nLicensed under the Apache License, Version 2.0.\n");
        proof {
            assert(content@ =~= spec_license_content(
                params.common.project_name@,
                spec_utc_year(now as int),
            ));
        }
        one_file("LICENSE", "./", content, SupportedFacetType::License)
    }

    fn generate_security_policy_content(&self, params: &SourceBundleFacetCreateParams) -> (r:
        SourceBundleContent)
        ensures
            r.facet_type == SupportedFacetType::SecurityPolicy,
            views_of_file_contents(r.source_files_content@) == spec_bundle_contents(
                SourceBundleFacetCreateParamsView {
                    common: params.common@,
                    facet_type: SupportedFacetType::SecurityPolicy,
                },
                0,
            ),
    {
        let content =
            "# Security Policy\n\nReport suspected vulnerabilities privately through the repository's security advisories page.\n".to_owned();
        one_file("SECURITY.md", "./", content, SupportedFacetType::SecurityPolicy)
    }

    fn generate_scorecard_content(&self, params: &SourceBundleFacetCreateParams) -> (r:
        SourceBundleContent)
        ensures
            r.facet_type == SupportedFacetType::Scorecard,
            views_of_file_contents(r.source_files_content@) == spec_bundle_contents(
                SourceBundleFacetCreateParamsView {
                    common: params.common@,
                    facet_type: SupportedFacetType::Scorecard,
                },
                0,
            ),
    {
        let content =
            "name: scorecard\non:\n  schedule:\n    - cron: '30 1 * * 6'\npermissions: read-all\njobs:\n  analysis:\n    uses: ossf/scorecard-action/.github/workflows/scorecard-analysis.yml@main\n".to_owned();
        one_file("scorecard.yml", "./.github/workflows", content, SupportedFacetType::Scorecard)
    }

    fn generate_sast_content(&self, params: &SourceBundleFacetCreateParams) -> (r:
        SourceBundleContent)
        ensures
            r.facet_type == SupportedFacetType::SAST,
            views_of_file_contents(r.source_files_content@) == spec_bundle_contents(
                SourceBundleFacetCreateParamsView {
                    common: params.common@,
                    facet_type: SupportedFacetType::SAST,
                },
                0,
            ),
    {
        let content =
            "name: codeql\non:\n  push: {}\n  pull_request: {}\npermissions: read-all\njobs:\n  analyze:\n    uses: github/codeql-action/.github/workflows/codeql.yml@main\n".to_owned();
        one_file("codeql.yml", "./.github/workflows", content, SupportedFacetType::SAST)
    }

    fn generate_security_insights_content(
        &self,
        params: &SourceBundleFacetCreateParams,
        now: i64,
    ) -> (r: SourceBundleContent)
        requires
            -crate::time::chrono_ts_bound() <= now <= crate::time::chrono_ts_bound(),
        ensures
            r.facet_type == SupportedFacetType::SecurityInsights,
            views_of_file_contents(r.source_files_content@) == spec_bundle_contents(
                SourceBundleFacetCreateParamsView {
                    common: params.common@,
                    facet_type: SupportedFacetType::SecurityInsights,
                },
                now as int,
            ),
    {
        let url = params.common.repo.full_url();
        let now_s = format_rfc3339(now);
        let exp_s = format_rfc3339(now + 31536000);
        let mut content = "header:\n  schema-version: 1.0.0\n  expiration-date: ".to_owned();
        content.append(exp_s.as_str());
        content.append("\n  last-reviewed: ");
        content.append(now_s.as_str());
        content.append("\n  last-updated: ");
        content.append(now_s.as_str());
        content.append("\n  project-url: ");
        content.append(url.as_str());
        content.append("\n  license: ");
        content.append(url.as_str());
        content.append(
            "/blob/main/LICENSE\nproject-lifecycle:\n  status: active\n  bug-fixes-only: false\ncontribution-policy:\n  accepts-pull-requests: true\n  accepts-automated-pull-requests: true\ndependencies:\n  dependencies-lists:\n    - ",
        );
        content.append(url.as_str());
        content.append("/blob/main/go.mod\n  sbom:\n");
        append_sbom_entry(&mut content, &url, "-linux-amd64");
        append_sbom_entry(&mut content, &url, "-linux-arm");
        append_sbom_entry(&mut content, &url, "-linux-arm64");
        append_sbom_entry(&mut content, &url, "-windows-amd64.exe");
        append_sbom_entry(&mut content, &url, "");
        content.append(
            "vulnerability-reporting:\n  accepts-vulnerability-reports: true\n  security-policy: ",
        );
        content.append(url.as_str());
        content.append("/blob/main/SECURITY.md\n");
        proof {
            assert(content@ =~= spec_security_insights_content(
                spec_repo_full_url(params.common.repo@),
                spec_rfc3339(now as int),
                spec_rfc3339(now as int + 31536000),
            ));
        }
        one_file("SECURITY-INSIGHTS.yml", "./", content, SupportedFacetType::SecurityInsights)
    }
}

/// Appends one SPDX reference to the SECURITY-INSIGHTS document.
fn append_sbom_entry(out: &mut String, url: &String, suffix: &str)
    ensures
        final(out)@ == old(out)@ + spec_sbom_entry(url@, suffix@),
{
    out.append("    - sbom-file: ");
    out.append(url.as_str());
    out.append("/releases/latest/download/main");
    out.append(suffix);
    out.append(
        ".spdx.sbom.json\n      sbom-format: SPDX\n      sbom-url: https://spdx.github.io/spdx-spec/v2.3/\n      sbom-creation: Created by goreleaser\n",
    );
    proof {
        assert(final(out)@ =~= old(out)@ + spec_sbom_entry(url@, suffix@));
    }
}

/// Generates the content of the facets specific to Go projects hosted on
/// Github: gitignore, the SLSA release pipeline, dependabot, fuzzing, and
/// the boilerplate entry file.
struct GoGithubSourceBundleContentHandler {}

impl GoGithubSourceBundleContentHandler {
    fn generate_gitignore_content(&self, params: &SourceBundleFacetCreateParams) -> (r:
        SourceBundleContent)
        ensures
            r.facet_type == SupportedFacetType::Gitignore,
            views_of_file_contents(r.source_files_content@) == spec_bundle_contents(
                SourceBundleFacetCreateParamsView {
                    common: params.common@,
                    facet_type: SupportedFacetType::Gitignore,
                },
                0,
            ),
    {
        let content = "/bin/\n/dist/\n*.exe\n*.out\n*.test\n".to_owned();
        one_file(".gitignore", "./", content, SupportedFacetType::Gitignore)
    }

    fn generate_slsa_build_content(&self, params: &SourceBundleFacetCreateParams) -> (r:
        SourceBundleContent)
        ensures
            r.facet_type == SupportedFacetType::SLSABuild,
            views_of_file_contents(r.source_files_content@) == spec_bundle_contents(
                SourceBundleFacetCreateParamsView {
                    common: params.common@,
                    facet_type: SupportedFacetType::SLSABuild,
                },
                0,
            ),
    {
        let name = &params.common.project_name;
        let releases =
            "name: releases\non:\n  push:\n    tags:\n      - 'v*'\npermissions: read-all\njobs:\n  release:\n    runs-on: ubuntu-latest\n    steps:\n      - uses: goreleaser/goreleaser-action@v5\n        with:\n          args: release --clean\n".to_owned();
        let mut dockerfile = "FROM cgr.dev/chainguard/static\nCOPY ".to_owned();
        dockerfile.append(name.as_str());
        dockerfile.append(" /usr/local/bin/");
        dockerfile.append(name.as_str());
        dockerfile.append("\nENTRYPOINT [\"/usr/local/bin/");
        dockerfile.append(name.as_str());
        dockerfile.append("\"]\n");
        let module = match &params.common.ecosystem {
            InitializedEcosystem::Go(g) => g.module(),
            InitializedEcosystem::Maven(_) => String::new(),
        };
        let mut goreleaser = "project_name: ".to_owned();
        goreleaser.append(name.as_str());
        goreleaser.append(
            "\nbuilds:\n  - main: .\n    binary: main\n    goos: [linux, windows]\n    goarch: [amd64, arm, arm64]\nsboms:\n  - artifacts: binary\nmodule: ",
        );
        goreleaser.append(module.as_str());
        goreleaser.append("\n");
        let mut files: Vec<SourceFileContent> = Vec::new();
        files.push(
            SourceFileContent {
                name: "releases.yml".to_owned(),
                path: ".github/workflows/".to_owned(),
                content: releases,
            },
        );
        files.push(
            SourceFileContent {
                name: "Dockerfile.goreleaser".to_owned(),
                path: "./".to_owned(),
                content: dockerfile,
            },
        );
        files.push(
            SourceFileContent {
                name: ".goreleaser.yml".to_owned(),
                path: "./".to_owned(),
                content: goreleaser,
            },
        );
        proof {
            assert(views_of_file_contents(files@) =~= spec_bundle_contents(
                SourceBundleFacetCreateParamsView {
                    common: params.common@,
                    facet_type: SupportedFacetType::SLSABuild,
                },
                0,
            ));
        }
        SourceBundleContent { source_files_content: files, facet_type: SupportedFacetType::SLSABuild }
    }

    fn generate_dependency_update_tool_content(&self, params: &SourceBundleFacetCreateParams) -> (
        r: SourceBundleContent)
        ensures
            r.facet_type == SupportedFacetType::DependencyUpdateTool,
            views_of_file_contents(r.source_files_content@) == spec_bundle_contents(
                SourceBundleFacetCreateParamsView {
                    common: params.common@,
                    facet_type: SupportedFacetType::DependencyUpdateTool,
                },
                0,
            ),
    {
        let content =
            "version: 2\nupdates:\n  - package-ecosystem: gomod\n    directory: /\n    schedule:\n      interval: daily\n".to_owned();
        one_file(
            "dependabot.yml",
            ".github/",
            content,
            SupportedFacetType::DependencyUpdateTool,
        )
    }

    fn generate_fuzzing_content(&self, params: &SourceBundleFacetCreateParams) -> (r:
        SourceBundleContent)
        ensures
            r.facet_type == SupportedFacetType::Fuzzing,
            views_of_file_contents(r.source_files_content@) == spec_bundle_contents(
                SourceBundleFacetCreateParamsView {
                    common: params.common@,
                    facet_type: SupportedFacetType::Fuzzing,
                },
                0,
            ),
    {
        let mut content =
            "name: cifuzz\non: [pull_request]\njobs:\n  fuzzing:\n    runs-on: ubuntu-latest\n    env:\n      PROJECT: ".to_owned();
        content.append(params.common.project_name.as_str());
        content.append("\n      LANGUAGE: go\n");
        proof {
            assert(content@ =~= spec_fuzzing_content(params.common.project_name@));
        }
        one_file("cifuzz.yml", ".github/workflows/", content, SupportedFacetType::Fuzzing)
    }

    fn generate_default_source_code_content(&self, params: &SourceBundleFacetCreateParams) -> (r:
        SourceBundleContent)
        ensures
            r.facet_type == SupportedFacetType::DefaultSourceCode,
            views_of_file_contents(r.source_files_content@) == spec_bundle_contents(
                SourceBundleFacetCreateParamsView {
                    common: params.common@,
                    facet_type: SupportedFacetType::DefaultSourceCode,
                },
                0,
            ),
    {
        let content =
            "package main\n\nimport \"fmt\"\n\nfunc main() {\n\tfmt.Println(\"Hello, world!\")\n}\n".to_owned();
        one_file("main.go", "./", content, SupportedFacetType::DefaultSourceCode)
    }
}

/// Generates the content of one source bundle facet: dispatches on the
/// facet type and the project's ecosystem. Succeeds exactly on the
/// combinations the catalogue supports; the contents are a function of
/// the parameters and the current time.
pub fn generate_bundle_content(params: &SourceBundleFacetCreateParams, now: i64) -> (r: Result<
    SourceBundleContent,
    SkootError,
>)
    requires
        -crate::time::chrono_ts_bound() <= now <= crate::time::chrono_ts_bound(),
    ensures
        r matches Ok(c) ==> c.facet_type == params.facet_type && views_of_file_contents(
            c.source_files_content@,
        ) == spec_bundle_contents(params@, now as int),
        r is Ok <==> spec_bundle_supported(params.facet_type, params.common.ecosystem@),
        r matches Err(e) ==> e is Unsupported,
{
    let default_handler = DefaultSourceBundleContentHandler {};
    let go_handler = GoGithubSourceBundleContentHandler {};
    let is_go = match &params.common.ecosystem {
        InitializedEcosystem::Go(_) => true,
        InitializedEcosystem::Maven(_) => false,
    };
    match params.facet_type {
        SupportedFacetType::Readme => Ok(default_handler.generate_readme_content(params)),
        SupportedFacetType::License => Ok(default_handler.generate_license_content(params, now)),
        SupportedFacetType::SecurityPolicy => Ok(
            default_handler.generate_security_policy_content(params),
        ),
        SupportedFacetType::Scorecard => Ok(default_handler.generate_scorecard_content(params)),
        SupportedFacetType::SAST => Ok(default_handler.generate_sast_content(params)),
        SupportedFacetType::SecurityInsights => Ok(
            default_handler.generate_security_insights_content(params, now),
        ),
        SupportedFacetType::Gitignore => {
            if is_go {
                Ok(go_handler.generate_gitignore_content(params))
            } else {
                Err(SkootError::Unsupported("facet not supported for this ecosystem".to_owned()))
            }
        },
        SupportedFacetType::SLSABuild => {
            if is_go {
                Ok(go_handler.generate_slsa_build_content(params))
            } else {
                Err(SkootError::Unsupported("facet not supported for this ecosystem".to_owned()))
            }
        },
        SupportedFacetType::DependencyUpdateTool => {
            if is_go {
                Ok(go_handler.generate_dependency_update_tool_content(params))
            } else {
                Err(SkootError::Unsupported("facet not supported for this ecosystem".to_owned()))
            }
        },
        SupportedFacetType::Fuzzing => {
            if is_go {
                Ok(go_handler.generate_fuzzing_content(params))
            } else {
                Err(SkootError::Unsupported("facet not supported for this ecosystem".to_owned()))
            }
        },
        SupportedFacetType::DefaultSourceCode => {
            if is_go {
                Ok(go_handler.generate_default_source_code_content(params))
            } else {
                Err(SkootError::Unsupported("facet not supported for this ecosystem".to_owned()))
            }
        },
        _ => Err(SkootError::Unsupported("facet type not in the source catalogue".to_owned())),
    }
}

/// Every file's name and path can be carried by the `"name:path:hash"`
/// string form: neither contains a colon.
pub open spec fn spec_contents_trackable(cs: Seq<SourceFileContentView>) -> bool {
    forall|k: int|
        0 <= k < cs.len() ==> crate::facet::colon_free((#[trigger] cs[k]).name)
            && crate::facet::colon_free(cs[k].path)
}

/// Turns generated contents into the persisted facet record: each file is
/// tracked by name, path, and the lowercase hex SHA-256 of exactly the
/// content that was written for it. Succeeds exactly when every generated
/// name and path can be carried by the `"name:path:hash"` string form.
pub fn track_bundle(content: &SourceBundleContent) -> (r: Result<SourceBundleFacet, SkootError>)
    ensures
        r is Ok <==> spec_contents_trackable(
            views_of_file_contents(content.source_files_content@),
        ),
        r matches Err(e) ==> e is Input,
        r matches Ok(sb) ==> {
            &&& sb.facet_type == content.facet_type
            &&& sb.source_files_content is None
            &&& sb.source_files matches Some(fs) && {
                let cs = views_of_file_contents(content.source_files_content@);
                &&& views_of_files(fs@).len() == cs.len()
                &&& forall|k: int|
                    0 <= k < cs.len() ==> {
                        &&& (#[trigger] views_of_files(fs@)[k]).name == cs[k].name
                        &&& views_of_files(fs@)[k].path == cs[k].path
                        &&& views_of_files(fs@)[k].hash == spec_text_hash(cs[k].content)
                        &&& crate::facet::wf_source_file(views_of_files(fs@)[k])
                    }
            }
        },
{
    let mut fs: Vec<SourceFile> = Vec::new();
    let mut k: usize = 0;
    let ghost cs = views_of_file_contents(content.source_files_content@);
    while k < content.source_files_content.len()
        invariant
            k <= content.source_files_content.len(),
            cs == views_of_file_contents(content.source_files_content@),
            cs.len() == content.source_files_content@.len(),
            views_of_files(fs@).len() == k,
            forall|j: int|
                0 <= j < k ==> {
                    &&& (#[trigger] views_of_files(fs@)[j]).name == cs[j].name
                    &&& views_of_files(fs@)[j].path == cs[j].path
                    &&& views_of_files(fs@)[j].hash == spec_text_hash(cs[j].content)
                    &&& crate::facet::wf_source_file(views_of_files(fs@)[j])
                },
        decreases content.source_files_content.len() - k,
    {
        let c = &content.source_files_content[k];
        let name_chars = str_to_chars(c.name.as_str());
        if find_char(&name_chars, 0, ':') != name_chars.len() {
            proof {
                assert(!crate::facet::colon_free(cs[k as int].name));
            }
            return Err(SkootError::Input("generated file name holds a colon".to_owned()));
        }
        let path_chars = str_to_chars(c.path.as_str());
        if find_char(&path_chars, 0, ':') != path_chars.len() {
            proof {
                assert(!spec_contents_trackable(cs)) by {
                    if spec_contents_trackable(cs) {
                        let bad = cs[k as int];
                        assert(crate::facet::colon_free(bad.name) && crate::facet::colon_free(
                            bad.path,
                        ));
                    }
                }
            }
            return Err(SkootError::Input("generated file path holds a colon".to_owned()));
        }
        let hash = sha256_hex(c.content.as_str());
        let f = SourceFile { name: c.name.clone(), path: c.path.clone(), hash };
        let ghost pre = fs@;
        fs.push(f);
        proof {
            assert(crate::facet::colon_free(c.name@));
            assert(crate::facet::colon_free(c.path@));
            assert(crate::facet::colon_free(f.hash@));
            assert forall|j: int| 0 <= j <= k implies {
                &&& (#[trigger] views_of_files(fs@)[j]).name == cs[j].name
                &&& views_of_files(fs@)[j].path == cs[j].path
                &&& views_of_files(fs@)[j].hash == spec_text_hash(cs[j].content)
                &&& crate::facet::wf_source_file(views_of_files(fs@)[j])
            } by {
                assert(views_of_files(fs@)[j] == fs@[j]@);
                if j < k {
                    assert(fs@[j] == pre[j]);
                    assert(views_of_files(pre)[j] == pre[j]@);
                } else {
                    assert(fs@[j] == f);
                    assert(cs[j] == content.source_files_content@[j]@);
                }
            }
        }
        k = k + 1;
    }
    proof {
        assert forall|j: int| 0 <= j < cs.len() implies crate::facet::colon_free(
            #[trigger] cs[j].name,
        ) && crate::facet::colon_free(cs[j].path) by {
            assert(crate::facet::wf_source_file(views_of_files(fs@)[j]));
            assert(views_of_files(fs@)[j].name == cs[j].name);
            assert(views_of_files(fs@)[j].path == cs[j].path);
        }
    }
    Ok(
        SourceBundleFacet {
            source_files: Some(fs),
            facet_type: content.facet_type,
            source_files_content: None,
        },
    )
}

// ------------------------------------------------------------------
// API bundle facets.
// ------------------------------------------------------------------

/// The branch protection endpoint for a repo.
pub open spec fn spec_branch_protection_endpoint(owner: Seq<char>, name: Seq<char>) -> Seq<char> {
    "/repos/"@ + owner + "/"@ + name + "/branches/main/protection"@
}

/// The fixed branch protection request body.
pub open spec fn spec_branch_protection_body() -> Seq<char> {
    "{\"enforce_admins\":true,\"required_pull_request_reviews\":null,\"required_status_checks\":null,\"restrictions\":null,\"required_linear_history\":true,\"allow_force_pushes\":false,\"allow_deletions\":null}"@
}

/// The private vulnerability reporting endpoint for a repo.
pub open spec fn spec_vulnerability_reporting_endpoint(
    owner: Seq<char>,
    name: Seq<char>,
) -> Seq<char> {
    "/repos/"@ + owner + "/"@ + name + "/private-vulnerability-reporting"@
}

/// Builds `/repos/{owner}/{repo}` followed by a suffix.
fn build_repo_endpoint(repo: &InitializedGithubRepo, suffix: &str) -> (r: String)
    ensures
        r@ == "/repos/"@ + spec_user_name(repo.organization@) + "/"@ + repo.name@ + suffix@,
{
    let mut r = "/repos/".to_owned();
    let owner = repo.organization.get_name();
    r.append(owner.as_str());
    r.append("/");
    r.append(repo.name.as_str());
    r.append(suffix);
    proof {
        assert(r@ =~= "/repos/"@ + spec_user_name(repo.organization@) + "/"@ + repo.name@
            + suffix@);
    }
    r
}

/// Issues the forge API calls for one API bundle facet against Github.
struct GithubAPIBundleHandler {}

impl GithubAPIBundleHandler {
    /// Enables branch protection on the default branch; the response text
    /// is captured in the facet's API record.
    fn generate_branch_protection<C: ForgeClient>(
        &self,
        client: &C,
        repo: &InitializedGithubRepo,
    ) -> (r: Result<APIBundleFacet, SkootError>)
        ensures
            r matches Ok(f) ==> {
                &&& f.facet_type == SupportedFacetType::BranchProtection
                &&& f.apis@.len() == 1
                &&& f.apis@[0].name@ == "Enforce Branch Protection"@
                &&& f.apis@[0].url@ == spec_branch_protection_endpoint(
                    spec_user_name(repo.organization@),
                    repo.name@,
                )
            },
    {
        let endpoint = build_repo_endpoint(repo, "/branches/main/protection");
        proof {
            assert(endpoint@ =~= spec_branch_protection_endpoint(
                spec_user_name(repo.organization@),
                repo.name@,
            ));
        }
        let body =
            "{\"enforce_admins\":true,\"required_pull_request_reviews\":null,\"required_status_checks\":null,\"restrictions\":null,\"required_linear_history\":true,\"allow_force_pushes\":false,\"allow_deletions\":null}".to_owned();
        let response = client.put_json(&endpoint, &body)?;
        let mut apis: Vec<APIContent> = Vec::new();
        apis.push(
            APIContent { name: "Enforce Branch Protection".to_owned(), url: endpoint, response },
        );
        Ok(APIBundleFacet { apis, facet_type: SupportedFacetType::BranchProtection })
    }

    /// Enables private vulnerability reporting; success carries no body,
    /// so the record's response is the literal `Success`.
    fn generate_vulnerability_reporting<C: ForgeClient>(
        &self,
        client: &C,
        repo: &InitializedGithubRepo,
    ) -> (r: Result<APIBundleFacet, SkootError>)
        ensures
            r matches Ok(f) ==> {
                &&& f.facet_type == SupportedFacetType::VulnerabilityReporting
                &&& f.apis@.len() == 1
                &&& f.apis@[0].name@ == "Enabling vulnerability reporting"@
                &&& f.apis@[0].url@ == spec_vulnerability_reporting_endpoint(
                    spec_user_name(repo.organization@),
                    repo.name@,
                )
                &&& f.apis@[0].response@ == "Success"@
            },
    {
        let endpoint = build_repo_endpoint(repo, "/private-vulnerability-reporting");
        proof {
            assert(endpoint@ =~= spec_vulnerability_reporting_endpoint(
                spec_user_name(repo.organization@),
                repo.name@,
            ));
        }
        client.put_empty(&endpoint)?;
        let mut apis: Vec<APIContent> = Vec::new();
        apis.push(
            APIContent {
                name: "Enabling vulnerability reporting".to_owned(),
                url: endpoint,
                response: "Success".to_owned(),
            },
        );
        Ok(APIBundleFacet { apis, facet_type: SupportedFacetType::VulnerabilityReporting })
    }
}

// ------------------------------------------------------------------
// The facet engine.
// ------------------------------------------------------------------

/// The facet type a set of creation parameters asks for.
pub open spec fn spec_params_facet_type(p: FacetCreateParamsView) -> SupportedFacetType {
    match p {
        FacetCreateParamsView::SourceBundle(s) => s.facet_type,
        FacetCreateParamsView::APIBundle(a) => a.facet_type,
    }
}

/// Applies source bundle facets: generate content, write each file, and
/// track every file by name, path, and the hash of the bytes written.
pub trait SourceBundleFacetService {
    fn initialize(&self, params: SourceBundleFacetCreateParams) -> (r: Result<
        SourceBundleFacet,
        SkootError,
    >)
        ensures
            r matches Ok(sb) ==> sb.facet_type == params.facet_type && wf_facet(
                crate::facet::InitializedFacetView::SourceBundle(sb@),
            ),
    ;
}

/// Applies API bundle facets: issue the calls and record each one.
pub trait APIBundleFacetService {
    fn initialize(&self, params: APIBundleFacetParams) -> (r: Result<APIBundleFacet, SkootError>)
        ensures
            r matches Ok(ab) ==> ab.facet_type == params.facet_type,
    ;
}

/// The root facet engine: applies any facet, and whole plans with
/// all-or-first-error semantics.
pub trait RootFacetService {
    fn initialize(&self, params: FacetCreateParams) -> (r: Result<InitializedFacet, SkootError>)
        ensures
            r matches Ok(f) ==> {
                &&& spec_facet_type(f@) == spec_params_facet_type(params@)
                &&& wf_facet(f@)
                &&& (f@ is SourceBundle <==> params@ is SourceBundle)
            },
    ;

    fn initialize_all(&self, params: FacetSetCreateParams) -> (r: Result<
        Vec<InitializedFacet>,
        SkootError,
    >)
        ensures
            r matches Ok(fs) ==> fs@.len() == params@.len() && forall|k: int|
                0 <= k < fs@.len() ==> {
                    &&& spec_facet_type(#[trigger] fs@[k]@) == spec_params_facet_type(params@[k])
                    &&& wf_facet(fs@[k]@)
                    &&& (fs@[k]@ is SourceBundle <==> params@[k] is SourceBundle)
                },
    ;
}

/// The facet engine run on the local machine: files go through the source
/// driver, API calls through the forge client.
#[derive(Debug)]
pub struct LocalFacetService<SS: SourceService, C: ForgeClient> {
    pub source_service: SS,
    pub client: C,
}

impl<SS: SourceService, C: ForgeClient> SourceBundleFacetService for LocalFacetService<SS, C> {
    fn initialize(&self, params: SourceBundleFacetCreateParams) -> (r: Result<
        SourceBundleFacet,
        SkootError,
    >) {
        let now = utc_now_unix();
        let content = generate_bundle_content(&params, now)?;
        let mut k: usize = 0;
        while k < content.source_files_content.len()
            invariant
                k <= content.source_files_content.len(),
            decreases content.source_files_content.len() - k,
        {
            let c = &content.source_files_content[k];
            self.source_service.write_file(
                params.common.source.clone(),
                c.path.clone(),
                c.name.clone(),
                c.content.clone(),
            )?;
            k = k + 1;
        }
        track_bundle(&content)
    }
}

impl<SS: SourceService, C: ForgeClient> APIBundleFacetService for LocalFacetService<SS, C> {
    fn initialize(&self, params: APIBundleFacetParams) -> (r: Result<APIBundleFacet, SkootError>) {
        let handler = GithubAPIBundleHandler {};
        let InitializedRepo::Github(repo) = &params.common.repo;
        match params.facet_type {
            SupportedFacetType::BranchProtection => handler.generate_branch_protection(
                &self.client,
                repo,
            ),
            SupportedFacetType::VulnerabilityReporting => handler.generate_vulnerability_reporting(
                &self.client,
                repo,
            ),
            _ => Err(SkootError::Unsupported("facet type not in the API catalogue".to_owned())),
        }
    }
}

impl<SS: SourceService, C: ForgeClient> RootFacetService for LocalFacetService<SS, C> {
    fn initialize(&self, params: FacetCreateParams) -> (r: Result<InitializedFacet, SkootError>) {
        match params {
            FacetCreateParams::SourceBundle(p) => {
                let sb = SourceBundleFacetService::initialize(self, p)?;
                Ok(InitializedFacet::SourceBundle(sb))
            },
            FacetCreateParams::APIBundle(p) => {
                let ab = APIBundleFacetService::initialize(self, p)?;
                Ok(InitializedFacet::APIBundle(ab))
            },
        }
    }

    fn initialize_all(&self, params: FacetSetCreateParams) -> (r: Result<
        Vec<InitializedFacet>,
        SkootError,
    >) {
        let mut out: Vec<InitializedFacet> = Vec::new();
        let mut k: usize = 0;
        while k < params.facets_params.len()
            invariant
                k <= params.facets_params.len(),
                out@.len() == k,
                forall|j: int|
                    0 <= j < k ==> {
                        &&& spec_facet_type(#[trigger] out@[j]@) == spec_params_facet_type(
                            params@[j],
                        )
                        &&& wf_facet(out@[j]@)
                        &&& (out@[j]@ is SourceBundle <==> params@[j] is SourceBundle)
                    },
            decreases params.facets_params.len() - k,
        {
            let p = params.facets_params[k].clone();
            proof {
                assert(params@[k as int] == params.facets_params@[k as int]@);
            }
            let f = RootFacetService::initialize(self, p)?;
            out.push(f);
            k = k + 1;
        }
        Ok(out)
    }
}

// ------------------------------------------------------------------
// The default plan.
// ------------------------------------------------------------------

/// The facet types of the source bundle phase, in application order.
pub open spec fn spec_default_source_types() -> Seq<SupportedFacetType> {
    seq![
        SupportedFacetType::Readme,
        SupportedFacetType::License,
        SupportedFacetType::Gitignore,
        SupportedFacetType::SecurityPolicy,
        SupportedFacetType::SecurityInsights,
        SupportedFacetType::SLSABuild,
        SupportedFacetType::DependencyUpdateTool,
        SupportedFacetType::Scorecard,
        SupportedFacetType::SAST,
        SupportedFacetType::DefaultSourceCode,
    ]
}

/// The facet types of the API bundle phase, in application order.
pub open spec fn spec_default_api_types() -> Seq<SupportedFacetType> {
    seq![SupportedFacetType::BranchProtection, SupportedFacetType::VulnerabilityReporting]
}

/// The source bundle phase of the default plan.
pub open spec fn spec_default_source_plan(c: CommonFacetCreateParamsView) -> Seq<
    FacetCreateParamsView,
> {
    spec_default_source_types().map_values(
        |t: SupportedFacetType|
            FacetCreateParamsView::SourceBundle(
                SourceBundleFacetCreateParamsView { common: c, facet_type: t },
            ),
    )
}

/// The API bundle phase of the default plan.
pub open spec fn spec_default_api_plan(c: CommonFacetCreateParamsView) -> Seq<
    FacetCreateParamsView,
> {
    spec_default_api_types().map_values(
        |t: SupportedFacetType|
            FacetCreateParamsView::APIBundle(
                crate::facet::APIBundleFacetParamsView { common: c, facet_type: t },
            ),
    )
}

/// The whole default plan: the source bundle phase, then the API bundle
/// phase.
pub open spec fn spec_default_plan(c: CommonFacetCreateParamsView) -> Seq<FacetCreateParamsView> {
    spec_default_source_plan(c) + spec_default_api_plan(c)
}

/// Two-phase ordering of the default plan: every source bundle facet
/// stands before every API bundle facet, so facets that restrict writes
/// run only after the initial commit can be pushed.
pub proof fn lemma_default_plan_two_phase(c: CommonFacetCreateParamsView, i: int, j: int)
    requires
        0 <= i < spec_default_plan(c).len(),
        0 <= j < spec_default_plan(c).len(),
        spec_default_plan(c)[i] is SourceBundle,
        spec_default_plan(c)[j] is APIBundle,
    ensures
        i < j,
{
    assert(spec_default_plan(c).len() == 12);
    if i >= 10 {
        assert(spec_default_plan(c)[i] == spec_default_api_plan(c)[i - 10]);
    }
    if j < 10 {
        assert(spec_default_plan(c)[j] == spec_default_source_plan(c)[j]);
    }
}

/// Generates the default facet plans for a project.
pub struct FacetSetParamsGenerator {}

impl FacetSetParamsGenerator {
    /// The source bundle phase of the default plan.
    pub fn generate_default_source_bundle_facet_params(
        &self,
        common_params: &CommonFacetCreateParams,
    ) -> (r: Result<FacetSetCreateParams, SkootError>)
        ensures
            r matches Ok(ps) && ps@ == spec_default_source_plan(common_params@),
    {
        let mut facets_params: Vec<FacetCreateParams> = Vec::new();
        push_source_params(&mut facets_params, common_params, SupportedFacetType::Readme);
        push_source_params(&mut facets_params, common_params, SupportedFacetType::License);
        push_source_params(&mut facets_params, common_params, SupportedFacetType::Gitignore);
        push_source_params(&mut facets_params, common_params, SupportedFacetType::SecurityPolicy);
        push_source_params(
            &mut facets_params,
            common_params,
            SupportedFacetType::SecurityInsights,
        );
        push_source_params(&mut facets_params, common_params, SupportedFacetType::SLSABuild);
        push_source_params(
            &mut facets_params,
            common_params,
            SupportedFacetType::DependencyUpdateTool,
        );
        push_source_params(&mut facets_params, common_params, SupportedFacetType::Scorecard);
        push_source_params(&mut facets_params, common_params, SupportedFacetType::SAST);
        push_source_params(
            &mut facets_params,
            common_params,
            SupportedFacetType::DefaultSourceCode,
        );
        let result = FacetSetCreateParams { facets_params };
        proof {
            assert(result@ =~= spec_default_source_plan(common_params@));
        }
        Ok(result)
    }

    /// The API bundle phase of the default plan.
    pub fn generate_default_api_bundle(&self, common_params: &CommonFacetCreateParams) -> (r:
        Result<FacetSetCreateParams, SkootError>)
        ensures
            r matches Ok(ps) && ps@ == spec_default_api_plan(common_params@),
    {
        let mut facets_params: Vec<FacetCreateParams> = Vec::new();
        facets_params.push(
            FacetCreateParams::APIBundle(
                APIBundleFacetParams {
                    common: common_params.clone(),
                    facet_type: SupportedFacetType::BranchProtection,
                },
            ),
        );
        facets_params.push(
            FacetCreateParams::APIBundle(
                APIBundleFacetParams {
                    common: common_params.clone(),
                    facet_type: SupportedFacetType::VulnerabilityReporting,
                },
            ),
        );
        let result = FacetSetCreateParams { facets_params };
        proof {
            assert(result@ =~= spec_default_api_plan(common_params@));
        }
        Ok(result)
    }

    /// The whole default plan: the source bundle phase followed by the
    /// API bundle phase.
    pub fn generate_default(&self, common_params: &CommonFacetCreateParams) -> (r: Result<
        FacetSetCreateParams,
        SkootError,
    >)
        ensures
            r matches Ok(ps) && ps@ == spec_default_plan(common_params@),
    {
        let source = self.generate_default_source_bundle_facet_params(common_params)?;
        let api = self.generate_default_api_bundle(common_params)?;
        let mut facets_params = source.facets_params;
        let mut api_params = api.facets_params;
        facets_params.append(&mut api_params);
        let result = FacetSetCreateParams { facets_params };
        proof {
            assert(result@ =~= spec_default_plan(common_params@));
        }
        Ok(result)
    }
}

/// Pushes one source bundle facet's parameters onto the plan.
fn push_source_params(
    out: &mut Vec<FacetCreateParams>,
    common_params: &CommonFacetCreateParams,
    t: SupportedFacetType,
)
    ensures
        final(out)@.len() == old(out)@.len() + 1,
        forall|j: int| 0 <= j < old(out)@.len() ==> final(out)@[j] == old(out)@[j],
        final(out)@[old(out)@.len() as int]@ == FacetCreateParamsView::SourceBundle(
            SourceBundleFacetCreateParamsView { common: common_params@, facet_type: t },
        ),
{
    out.push(
        FacetCreateParams::SourceBundle(
            SourceBundleFacetCreateParams { common: common_params.clone(), facet_type: t },
        ),
    );
}

} // verus!
