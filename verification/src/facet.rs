//! The facet data model: the closed catalogue of facet types, source files
//! with their content-addressed tracking, API call records, and the two
//! facet variants (source bundles and API bundles).

use vstd::prelude::*;

use crate::model::{
    InitializedEcosystem, InitializedEcosystemView, InitializedRepo, InitializedRepoView,
    InitializedSource, InitializedSourceView,
};
use crate::strutil::{chars_to_string, find_char, slice_chars, str_eq, str_to_chars};

verus! {

/// The closed catalogue of facet types.
#[derive(Clone, Copy, Debug, PartialEq, Eq, Hash, Structural)]
pub enum SupportedFacetType {
    /// A README file.
    Readme,
    /// A SECURITY-INSIGHTS.yml file.
    SecurityInsights,
    /// Building the project via SLSA.
    SLSABuild,
    /// Generation of SBOMs in the project.
    SBOMGenerator,
    /// The project's license.
    License,
    /// Static code analysis run on the project.
    StaticCodeAnalysis,
    /// The project's gitignore file.
    Gitignore,
    /// Branch protection enabled on the project.
    BranchProtection,
    /// Code review enabled on the project.
    CodeReview,
    /// A tool for updating dependencies.
    DependencyUpdateTool,
    /// A tool for fuzzing.
    Fuzzing,
    /// The project publishes its packages.
    PublishPackages,
    /// The project pins its dependencies.
    PinnedDependencies,
    /// A Static Application Security Testing tool.
    SAST,
    /// The project's security policy.
    SecurityPolicy,
    /// The project runs a vulnerability scanner.
    VulnerabilityScanner,
    /// Forwarding security metadata to GUAC.
    GUACForwardingConfig,
    /// OpenSSF Allstar running against the project.
    Allstar,
    /// OpenSSF Scorecard running on the project.
    Scorecard,
    /// The project's default source code.
    DefaultSourceCode,
    /// A mechanism for reporting vulnerabilities.
    VulnerabilityReporting,
    /// A catch-all for facets that fit no other category.
    Other,
}

impl Default for SupportedFacetType {
    fn default() -> (r: Self)
        ensures
            r == SupportedFacetType::Other,
    {
        SupportedFacetType::Other
    }
}

/// The name under which a facet type appears in serialized facet map keys.
pub open spec fn spec_facet_type_name(t: SupportedFacetType) -> Seq<char> {
    match t {
        SupportedFacetType::Readme => "Readme"@,
        SupportedFacetType::SecurityInsights => "SecurityInsights"@,
        SupportedFacetType::SLSABuild => "SLSABuild"@,
        SupportedFacetType::SBOMGenerator => "SBOMGenerator"@,
        SupportedFacetType::License => "License"@,
        SupportedFacetType::StaticCodeAnalysis => "StaticCodeAnalysis"@,
        SupportedFacetType::Gitignore => "Gitignore"@,
        SupportedFacetType::BranchProtection => "BranchProtection"@,
        SupportedFacetType::CodeReview => "CodeReview"@,
        SupportedFacetType::DependencyUpdateTool => "DependencyUpdateTool"@,
        SupportedFacetType::Fuzzing => "Fuzzing"@,
        SupportedFacetType::PublishPackages => "PublishPackages"@,
        SupportedFacetType::PinnedDependencies => "PinnedDependencies"@,
        SupportedFacetType::SAST => "SAST"@,
        SupportedFacetType::SecurityPolicy => "SecurityPolicy"@,
        SupportedFacetType::VulnerabilityScanner => "VulnerabilityScanner"@,
        SupportedFacetType::GUACForwardingConfig => "GUACForwardingConfig"@,
        SupportedFacetType::Allstar => "Allstar"@,
        SupportedFacetType::Scorecard => "Scorecard"@,
        SupportedFacetType::DefaultSourceCode => "DefaultSourceCode"@,
        SupportedFacetType::VulnerabilityReporting => "VulnerabilityReporting"@,
        SupportedFacetType::Other => "Other"@,
    }
}

/// Reveals every facet type name literal, so that the names can be told apart.
pub proof fn reveal_facet_type_names()
    ensures
        forall|a: SupportedFacetType, b: SupportedFacetType|
            spec_facet_type_name(a) == spec_facet_type_name(b) ==> a == b,
        forall|t: SupportedFacetType, i: int|
            0 <= i < spec_facet_type_name(t).len() ==> #[trigger] spec_facet_type_name(t)[i]
                != ':',
{
    reveal_strlit("Readme");
    reveal_strlit("SecurityInsights");
    reveal_strlit("SLSABuild");
    reveal_strlit("SBOMGenerator");
    reveal_strlit("License");
    reveal_strlit("StaticCodeAnalysis");
    reveal_strlit("Gitignore");
    reveal_strlit("BranchProtection");
    reveal_strlit("CodeReview");
    reveal_strlit("DependencyUpdateTool");
    reveal_strlit("Fuzzing");
    reveal_strlit("PublishPackages");
    reveal_strlit("PinnedDependencies");
    reveal_strlit("SAST");
    reveal_strlit("SecurityPolicy");
    reveal_strlit("VulnerabilityScanner");
    reveal_strlit("GUACForwardingConfig");
    reveal_strlit("Allstar");
    reveal_strlit("Scorecard");
    reveal_strlit("DefaultSourceCode");
    reveal_strlit("VulnerabilityReporting");
    reveal_strlit("Other");
    assert("Readme"@ =~= seq!['R', 'e', 'a', 'd', 'm', 'e']);
    assert("SecurityInsights"@ =~= seq!['S', 'e', 'c', 'u', 'r', 'i', 't', 'y', 'I', 'n', 's', 'i', 'g', 'h', 't', 's']);
    assert("SLSABuild"@ =~= seq!['S', 'L', 'S', 'A', 'B', 'u', 'i', 'l', 'd']);
    assert("SBOMGenerator"@ =~= seq!['S', 'B', 'O', 'M', 'G', 'e', 'n', 'e', 'r', 'a', 't', 'o', 'r']);
    assert("License"@ =~= seq!['L', 'i', 'c', 'e', 'n', 's', 'e']);
    assert("StaticCodeAnalysis"@ =~= seq!['S', 't', 'a', 't', 'i', 'c', 'C', 'o', 'd', 'e', 'A', 'n', 'a', 'l', 'y', 's', 'i', 's']);
    assert("Gitignore"@ =~= seq!['G', 'i', 't', 'i', 'g', 'n', 'o', 'r', 'e']);
    assert("BranchProtection"@ =~= seq!['B', 'r', 'a', 'n', 'c', 'h', 'P', 'r', 'o', 't', 'e', 'c', 't', 'i', 'o', 'n']);
    assert("CodeReview"@ =~= seq!['C', 'o', 'd', 'e', 'R', 'e', 'v', 'i', 'e', 'w']);
    assert("DependencyUpdateTool"@ =~= seq!['D', 'e', 'p', 'e', 'n', 'd', 'e', 'n', 'c', 'y', 'U', 'p', 'd', 'a', 't', 'e', 'T', 'o', 'o', 'l']);
    assert("Fuzzing"@ =~= seq!['F', 'u', 'z', 'z', 'i', 'n', 'g']);
    assert("PublishPackages"@ =~= seq!['P', 'u', 'b', 'l', 'i', 's', 'h', 'P', 'a', 'c', 'k', 'a', 'g', 'e', 's']);
    assert("PinnedDependencies"@ =~= seq!['P', 'i', 'n', 'n', 'e', 'd', 'D', 'e', 'p', 'e', 'n', 'd', 'e', 'n', 'c', 'i', 'e', 's']);
    assert("SAST"@ =~= seq!['S', 'A', 'S', 'T']);
    assert("SecurityPolicy"@ =~= seq!['S', 'e', 'c', 'u', 'r', 'i', 't', 'y', 'P', 'o', 'l', 'i', 'c', 'y']);
    assert("VulnerabilityScanner"@ =~= seq!['V', 'u', 'l', 'n', 'e', 'r', 'a', 'b', 'i', 'l', 'i', 't', 'y', 'S', 'c', 'a', 'n', 'n', 'e', 'r']);
    assert("GUACForwardingConfig"@ =~= seq!['G', 'U', 'A', 'C', 'F', 'o', 'r', 'w', 'a', 'r', 'd', 'i', 'n', 'g', 'C', 'o', 'n', 'f', 'i', 'g']);
    assert("Allstar"@ =~= seq!['A', 'l', 'l', 's', 't', 'a', 'r']);
    assert("Scorecard"@ =~= seq!['S', 'c', 'o', 'r', 'e', 'c', 'a', 'r', 'd']);
    assert("DefaultSourceCode"@ =~= seq!['D', 'e', 'f', 'a', 'u', 'l', 't', 'S', 'o', 'u', 'r', 'c', 'e', 'C', 'o', 'd', 'e']);
    assert("VulnerabilityReporting"@ =~= seq!['V', 'u', 'l', 'n', 'e', 'r', 'a', 'b', 'i', 'l', 'i', 't', 'y', 'R', 'e', 'p', 'o', 'r', 't', 'i', 'n', 'g']);
    assert("Other"@ =~= seq!['O', 't', 'h', 'e', 'r']);
    assert forall|a: SupportedFacetType, b: SupportedFacetType|
        spec_facet_type_name(a) == spec_facet_type_name(b) implies a == b by {
        let sa = spec_facet_type_name(a);
        let sb = spec_facet_type_name(b);
        // every pair of distinct names differs in length, in the first
        // character, or in the second
        assert(sa.len() == sb.len());
        assert(sa[0] == sb[0]);
        assert(sa[1] == sb[1]);
    }
}

impl SupportedFacetType {
    /// The printable name of the facet type.
    pub fn name(&self) -> (r: String)
        ensures
            r@ == spec_facet_type_name(*self),
    {
        match self {
            SupportedFacetType::Readme => "Readme".to_owned(),
            SupportedFacetType::SecurityInsights => "SecurityInsights".to_owned(),
            SupportedFacetType::SLSABuild => "SLSABuild".to_owned(),
            SupportedFacetType::SBOMGenerator => "SBOMGenerator".to_owned(),
            SupportedFacetType::License => "License".to_owned(),
            SupportedFacetType::StaticCodeAnalysis => "StaticCodeAnalysis".to_owned(),
            SupportedFacetType::Gitignore => "Gitignore".to_owned(),
            SupportedFacetType::BranchProtection => "BranchProtection".to_owned(),
            SupportedFacetType::CodeReview => "CodeReview".to_owned(),
            SupportedFacetType::DependencyUpdateTool => "DependencyUpdateTool".to_owned(),
            SupportedFacetType::Fuzzing => "Fuzzing".to_owned(),
            SupportedFacetType::PublishPackages => "PublishPackages".to_owned(),
            SupportedFacetType::PinnedDependencies => "PinnedDependencies".to_owned(),
            SupportedFacetType::SAST => "SAST".to_owned(),
            SupportedFacetType::SecurityPolicy => "SecurityPolicy".to_owned(),
            SupportedFacetType::VulnerabilityScanner => "VulnerabilityScanner".to_owned(),
            SupportedFacetType::GUACForwardingConfig => "GUACForwardingConfig".to_owned(),
            SupportedFacetType::Allstar => "Allstar".to_owned(),
            SupportedFacetType::Scorecard => "Scorecard".to_owned(),
            SupportedFacetType::DefaultSourceCode => "DefaultSourceCode".to_owned(),
            SupportedFacetType::VulnerabilityReporting => "VulnerabilityReporting".to_owned(),
            SupportedFacetType::Other => "Other".to_owned(),
        }
    }

    /// Parses a facet type from its printable name.
    pub fn parse(s: &str) -> (r: Option<SupportedFacetType>)
        ensures
            forall|t: SupportedFacetType| s@ == spec_facet_type_name(t) ==> r == Some(t),
            r matches Some(t) ==> s@ == spec_facet_type_name(t),
    {
        proof {
            reveal_facet_type_names();
        }
        if str_eq(s, "Readme") {
            proof {
                assert(spec_facet_type_name(SupportedFacetType::Readme) == "Readme"@);
            }
            Some(SupportedFacetType::Readme)
        } else if str_eq(s, "SecurityInsights") {
            proof {
                assert(spec_facet_type_name(SupportedFacetType::SecurityInsights) == "SecurityInsights"@);
            }
            Some(SupportedFacetType::SecurityInsights)
        } else if str_eq(s, "SLSABuild") {
            proof {
                assert(spec_facet_type_name(SupportedFacetType::SLSABuild) == "SLSABuild"@);
            }
            Some(SupportedFacetType::SLSABuild)
        } else if str_eq(s, "SBOMGenerator") {
            proof {
                assert(spec_facet_type_name(SupportedFacetType::SBOMGenerator) == "SBOMGenerator"@);
            }
            Some(SupportedFacetType::SBOMGenerator)
        } else if str_eq(s, "License") {
            proof {
                assert(spec_facet_type_name(SupportedFacetType::License) == "License"@);
            }
            Some(SupportedFacetType::License)
        } else if str_eq(s, "StaticCodeAnalysis") {
            proof {
                assert(spec_facet_type_name(SupportedFacetType::StaticCodeAnalysis) == "StaticCodeAnalysis"@);
            }
            Some(SupportedFacetType::StaticCodeAnalysis)
        } else if str_eq(s, "Gitignore") {
            proof {
                assert(spec_facet_type_name(SupportedFacetType::Gitignore) == "Gitignore"@);
            }
            Some(SupportedFacetType::Gitignore)
        } else if str_eq(s, "BranchProtection") {
            proof {
                assert(spec_facet_type_name(SupportedFacetType::BranchProtection) == "BranchProtection"@);
            }
            Some(SupportedFacetType::BranchProtection)
        } else if str_eq(s, "CodeReview") {
            proof {
                assert(spec_facet_type_name(SupportedFacetType::CodeReview) == "CodeReview"@);
            }
            Some(SupportedFacetType::CodeReview)
        } else if str_eq(s, "DependencyUpdateTool") {
            proof {
                assert(spec_facet_type_name(SupportedFacetType::DependencyUpdateTool) == "DependencyUpdateTool"@);
            }
            Some(SupportedFacetType::DependencyUpdateTool)
        } else if str_eq(s, "Fuzzing") {
            proof {
                assert(spec_facet_type_name(SupportedFacetType::Fuzzing) == "Fuzzing"@);
            }
            Some(SupportedFacetType::Fuzzing)
        } else if str_eq(s, "PublishPackages") {
            proof {
                assert(spec_facet_type_name(SupportedFacetType::PublishPackages) == "PublishPackages"@);
            }
            Some(SupportedFacetType::PublishPackages)
        } else if str_eq(s, "PinnedDependencies") {
            proof {
                assert(spec_facet_type_name(SupportedFacetType::PinnedDependencies) == "PinnedDependencies"@);
            }
            Some(SupportedFacetType::PinnedDependencies)
        } else if str_eq(s, "SAST") {
            proof {
                assert(spec_facet_type_name(SupportedFacetType::SAST) == "SAST"@);
            }
            Some(SupportedFacetType::SAST)
        } else if str_eq(s, "SecurityPolicy") {
            proof {
                assert(spec_facet_type_name(SupportedFacetType::SecurityPolicy) == "SecurityPolicy"@);
            }
            Some(SupportedFacetType::SecurityPolicy)
        } else if str_eq(s, "VulnerabilityScanner") {
            proof {
                assert(spec_facet_type_name(SupportedFacetType::VulnerabilityScanner) == "VulnerabilityScanner"@);
            }
            Some(SupportedFacetType::VulnerabilityScanner)
        } else if str_eq(s, "GUACForwardingConfig") {
            proof {
                assert(spec_facet_type_name(SupportedFacetType::GUACForwardingConfig) == "GUACForwardingConfig"@);
            }
            Some(SupportedFacetType::GUACForwardingConfig)
        } else if str_eq(s, "Allstar") {
            proof {
                assert(spec_facet_type_name(SupportedFacetType::Allstar) == "Allstar"@);
            }
            Some(SupportedFacetType::Allstar)
        } else if str_eq(s, "Scorecard") {
            proof {
                assert(spec_facet_type_name(SupportedFacetType::Scorecard) == "Scorecard"@);
            }
            Some(SupportedFacetType::Scorecard)
        } else if str_eq(s, "DefaultSourceCode") {
            proof {
                assert(spec_facet_type_name(SupportedFacetType::DefaultSourceCode) == "DefaultSourceCode"@);
            }
            Some(SupportedFacetType::DefaultSourceCode)
        } else if str_eq(s, "VulnerabilityReporting") {
            proof {
                assert(spec_facet_type_name(SupportedFacetType::VulnerabilityReporting) == "VulnerabilityReporting"@);
            }
            Some(SupportedFacetType::VulnerabilityReporting)
        } else if str_eq(s, "Other") {
            proof {
                assert(spec_facet_type_name(SupportedFacetType::Other) == "Other"@);
            }
            Some(SupportedFacetType::Other)
        } else {
            None
        }
    }
}

/// The abstract value of a source file record.
pub ghost struct SourceFileView {
    pub name: Seq<char>,
    pub path: Seq<char>,
    pub hash: Seq<char>,
}

/// A file tracked by a facet: its name, its path relative to the source
/// root, and the lowercase hex SHA-256 of its bytes at application time.
/// Serialized as the string `"name:path:hash"`.
#[derive(Debug, PartialEq, Eq)]
pub struct SourceFile {
    pub name: String,
    pub path: String,
    pub hash: String,
}

impl View for SourceFile {
    type V = SourceFileView;

    open spec fn view(&self) -> SourceFileView {
        SourceFileView { name: self.name@, path: self.path@, hash: self.hash@ }
    }
}

impl Clone for SourceFile {
    fn clone(&self) -> (r: Self)
        ensures
            r@ == self@,
    {
        SourceFile { name: self.name.clone(), path: self.path.clone(), hash: self.hash.clone() }
    }
}

/// No colon occurs in `s`.
pub open spec fn colon_free(s: Seq<char>) -> bool {
    forall|i: int| 0 <= i < s.len() ==> s[i] != ':'
}

/// A source file record can be carried by the `"name:path:hash"` string form
/// exactly when none of its fields contains a colon.
pub open spec fn wf_source_file(f: SourceFileView) -> bool {
    colon_free(f.name) && colon_free(f.path) && colon_free(f.hash)
}

/// The serialized `"name:path:hash"` form.
pub open spec fn spec_source_file_string(f: SourceFileView) -> Seq<char> {
    f.name + ":"@ + f.path + ":"@ + f.hash
}

impl SourceFile {
    /// Serializes the record as `"name:path:hash"`.
    pub fn encode(&self) -> (r: String)
        ensures
            r@ == spec_source_file_string(self@),
    {
        let mut r = self.name.clone();
        r.append(":");
        r.append(self.path.as_str());
        r.append(":");
        r.append(self.hash.as_str());
        r
    }

    /// Parses a `"name:path:hash"` string; the unique well-formed record
    /// with this serialized form is returned when one exists.
    pub fn parse(s: &str) -> (r: Option<SourceFile>)
        ensures
            forall|fv: SourceFileView|
                wf_source_file(fv) && s@ == #[trigger] spec_source_file_string(fv) ==> (r matches
                Some(f) && f@ == fv),
    {
        proof {
            reveal_strlit(":");
        }
        let cs = str_to_chars(s);
        let i1 = find_char(&cs, 0, ':');
        if i1 == cs.len() {
            proof {
                assert forall|fv: SourceFileView|
                    wf_source_file(fv) && s@ == spec_source_file_string(fv) implies false by {
                    assert(s@[fv.name.len() as int] == ':');
                }
            }
            return None;
        }
        let i2 = find_char(&cs, i1 + 1, ':');
        if i2 == cs.len() {
            proof {
                assert forall|fv: SourceFileView|
                    wf_source_file(fv) && s@ == spec_source_file_string(fv) implies false by {
                    let n1 = fv.name.len() as int;
                    let n2 = n1 + 1 + fv.path.len() as int;
                    assert(s@[n1] == ':');
                    assert(s@[n2] == ':');
                    assert(i1 == n1) by {
                        if i1 < n1 {
                            assert(s@[i1 as int] == fv.name[i1 as int]);
                        }
                    }
                }
            }
            return None;
        }
        let i3 = find_char(&cs, i2 + 1, ':');
        let parsed = SourceFile {
            name: chars_to_string(&slice_chars(&cs, 0, i1)),
            path: chars_to_string(&slice_chars(&cs, i1 + 1, i2)),
            hash: chars_to_string(&slice_chars(&cs, i2 + 1, cs.len())),
        };
        if i3 < cs.len() {
            proof {
                assert forall|fv: SourceFileView|
                    wf_source_file(fv) && s@ == spec_source_file_string(fv) implies false by {
                    let n1 = fv.name.len() as int;
                    let n2 = n1 + 1 + fv.path.len() as int;
                    assert(s@[n1] == ':');
                    assert(s@[n2] == ':');
                    assert(i1 == n1) by {
                        if i1 < n1 {
                            assert(s@[i1 as int] == fv.name[i1 as int]);
                        }
                    }
                    assert(i2 == n2) by {
                        if i2 < n2 {
                            assert(s@[i2 as int] == fv.path[i2 as int - n1 - 1]);
                        }
                    }
                    assert(s@[i3 as int] == fv.hash[i3 as int - n2 - 1]);
                }
            }
            return None;
        }
        proof {
            assert forall|fv: SourceFileView|
                wf_source_file(fv) && s@ == spec_source_file_string(fv) implies parsed@ == fv by {
                let n1 = fv.name.len() as int;
                let n2 = n1 + 1 + fv.path.len() as int;
                assert(s@[n1] == ':');
                assert(s@[n2] == ':');
                assert(i1 == n1) by {
                    if i1 < n1 {
                        assert(s@[i1 as int] == fv.name[i1 as int]);
                    }
                }
                assert(i2 == n2) by {
                    if i2 < n2 {
                        assert(s@[i2 as int] == fv.path[i2 as int - n1 - 1]);
                    }
                }
                assert(parsed@.name =~= fv.name);
                assert(parsed@.path =~= fv.path);
                assert(parsed@.hash =~= fv.hash);
            }
        }
        Some(parsed)
    }
}

/// Round trip of source file records: any well-formed record survives
/// the `"name:path:hash"` string form.
pub fn source_file_round_trip(f: &SourceFile) -> (r: Option<SourceFile>)
    requires
        wf_source_file(f@),
    ensures
        r matches Some(f2) && f2@ == f@,
{
    let s = f.encode();
    SourceFile::parse(s.as_str())
}

/// The abstract value of a transient source file with its content.
pub ghost struct SourceFileContentView {
    pub name: Seq<char>,
    pub path: Seq<char>,
    pub content: Seq<char>,
}

/// A file to be written: name, path relative to the source root, and the
/// full content. Transient; never persisted.
#[derive(Debug, PartialEq, Eq)]
pub struct SourceFileContent {
    pub name: String,
    pub path: String,
    pub content: String,
}

impl View for SourceFileContent {
    type V = SourceFileContentView;

    open spec fn view(&self) -> SourceFileContentView {
        SourceFileContentView { name: self.name@, path: self.path@, content: self.content@ }
    }
}

impl Clone for SourceFileContent {
    fn clone(&self) -> (r: Self)
        ensures
            r@ == self@,
    {
        SourceFileContent {
            name: self.name.clone(),
            path: self.path.clone(),
            content: self.content.clone(),
        }
    }
}

/// The abstract value of one API call record.
pub ghost struct APIContentView {
    pub name: Seq<char>,
    pub url: Seq<char>,
    pub response: Seq<char>,
}

/// One API call made by a facet: its name, the URL called, and the
/// response text.
#[derive(Debug, PartialEq, Eq)]
pub struct APIContent {
    pub name: String,
    pub url: String,
    pub response: String,
}

impl View for APIContent {
    type V = APIContentView;

    open spec fn view(&self) -> APIContentView {
        APIContentView { name: self.name@, url: self.url@, response: self.response@ }
    }
}

impl Clone for APIContent {
    fn clone(&self) -> (r: Self)
        ensures
            r@ == self@,
    {
        APIContent {
            name: self.name.clone(),
            url: self.url.clone(),
            response: self.response.clone(),
        }
    }
}

/// The abstract value of a source bundle facet.
pub ghost struct SourceBundleFacetView {
    pub source_files: Option<Seq<SourceFileView>>,
    pub facet_type: SupportedFacetType,
    pub source_files_content: Option<Seq<(SourceFileView, Seq<char>)>>,
}

/// A facet consisting of a bundle of source files. Exactly one of
/// `source_files` (persisted records) and `source_files_content` (a
/// transient fetch result mapping records to contents) is populated.
#[derive(Debug, PartialEq, Eq)]
pub struct SourceBundleFacet {
    pub source_files: Option<Vec<SourceFile>>,
    pub facet_type: SupportedFacetType,
    pub source_files_content: Option<Vec<(SourceFile, String)>>,
}

/// The views of a sequence of source file records.
pub open spec fn views_of_files(fs: Seq<SourceFile>) -> Seq<SourceFileView> {
    fs.map_values(|f: SourceFile| f@)
}

/// The views of a sequence of (source file, content) pairs.
pub open spec fn views_of_contents(cs: Seq<(SourceFile, String)>) -> Seq<(SourceFileView, Seq<
    char,
>)> {
    cs.map_values(|p: (SourceFile, String)| (p.0@, p.1@))
}

impl View for SourceBundleFacet {
    type V = SourceBundleFacetView;

    open spec fn view(&self) -> SourceBundleFacetView {
        SourceBundleFacetView {
            source_files: match self.source_files {
                Some(fs) => Some(views_of_files(fs@)),
                None => None,
            },
            facet_type: self.facet_type,
            source_files_content: match self.source_files_content {
                Some(cs) => Some(views_of_contents(cs@)),
                None => None,
            },
        }
    }
}

/// The abstract value of an API bundle facet.
pub ghost struct APIBundleFacetView {
    pub apis: Seq<APIContentView>,
    pub facet_type: SupportedFacetType,
}

/// A facet consisting of an ordered sequence of API calls.
#[derive(Debug, PartialEq, Eq)]
pub struct APIBundleFacet {
    pub apis: Vec<APIContent>,
    pub facet_type: SupportedFacetType,
}

/// The views of a sequence of API call records.
pub open spec fn views_of_apis(cs: Seq<APIContent>) -> Seq<APIContentView> {
    cs.map_values(|c: APIContent| c@)
}

impl View for APIBundleFacet {
    type V = APIBundleFacetView;

    open spec fn view(&self) -> APIBundleFacetView {
        APIBundleFacetView { apis: views_of_apis(self.apis@), facet_type: self.facet_type }
    }
}

/// The abstract value of an initialized facet.
pub ghost enum InitializedFacetView {
    SourceBundle(SourceBundleFacetView),
    APIBundle(APIBundleFacetView),
}

/// A facet that has been applied to a project: either a bundle of source
/// files or a bundle of API calls.
#[derive(Debug, PartialEq, Eq)]
pub enum InitializedFacet {
    SourceBundle(SourceBundleFacet),
    APIBundle(APIBundleFacet),
}

impl View for InitializedFacet {
    type V = InitializedFacetView;

    open spec fn view(&self) -> InitializedFacetView {
        match self {
            InitializedFacet::SourceBundle(f) => InitializedFacetView::SourceBundle(f@),
            InitializedFacet::APIBundle(f) => InitializedFacetView::APIBundle(f@),
        }
    }
}

/// The facet type of a facet view.
pub open spec fn spec_facet_type(f: InitializedFacetView) -> SupportedFacetType {
    match f {
        InitializedFacetView::SourceBundle(s) => s.facet_type,
        InitializedFacetView::APIBundle(a) => a.facet_type,
    }
}

impl InitializedFacet {
    /// The facet type of the inner facet.
    pub fn facet_type(&self) -> (r: SupportedFacetType)
        ensures
            r == spec_facet_type(self@),
    {
        match self {
            InitializedFacet::SourceBundle(f) => f.facet_type,
            InitializedFacet::APIBundle(f) => f.facet_type,
        }
    }
}

/// The abstract value of the common facet creation parameters.
pub ghost struct CommonFacetCreateParamsView {
    pub project_name: Seq<char>,
    pub source: InitializedSourceView,
    pub repo: InitializedRepoView,
    pub ecosystem: InitializedEcosystemView,
}

/// The context shared by every facet being created: the project's name and
/// its initialized source, repo and ecosystem.
#[derive(Debug, PartialEq, Eq)]
pub struct CommonFacetCreateParams {
    pub project_name: String,
    pub source: InitializedSource,
    pub repo: InitializedRepo,
    pub ecosystem: InitializedEcosystem,
}

impl View for CommonFacetCreateParams {
    type V = CommonFacetCreateParamsView;

    open spec fn view(&self) -> CommonFacetCreateParamsView {
        CommonFacetCreateParamsView {
            project_name: self.project_name@,
            source: self.source@,
            repo: self.repo@,
            ecosystem: self.ecosystem@,
        }
    }
}

impl Clone for CommonFacetCreateParams {
    fn clone(&self) -> (r: Self)
        ensures
            r@ == self@,
    {
        CommonFacetCreateParams {
            project_name: self.project_name.clone(),
            source: self.source.clone(),
            repo: self.repo.clone(),
            ecosystem: self.ecosystem.clone(),
        }
    }
}

/// Parameters for creating one source bundle facet.
#[derive(Debug, PartialEq, Eq)]
pub struct SourceBundleFacetCreateParams {
    pub common: CommonFacetCreateParams,
    pub facet_type: SupportedFacetType,
}

impl Clone for SourceBundleFacetCreateParams {
    fn clone(&self) -> (r: Self)
        ensures
            r@ == self@,
    {
        SourceBundleFacetCreateParams {
            common: self.common.clone(),
            facet_type: self.facet_type,
        }
    }
}

/// The abstract value of source bundle facet creation parameters.
pub ghost struct SourceBundleFacetCreateParamsView {
    pub common: CommonFacetCreateParamsView,
    pub facet_type: SupportedFacetType,
}

impl View for SourceBundleFacetCreateParams {
    type V = SourceBundleFacetCreateParamsView;

    open spec fn view(&self) -> SourceBundleFacetCreateParamsView {
        SourceBundleFacetCreateParamsView { common: self.common@, facet_type: self.facet_type }
    }
}

/// Parameters for creating one API bundle facet.
#[derive(Debug, PartialEq, Eq)]
pub struct APIBundleFacetParams {
    pub common: CommonFacetCreateParams,
    pub facet_type: SupportedFacetType,
}

impl Clone for APIBundleFacetParams {
    fn clone(&self) -> (r: Self)
        ensures
            r@ == self@,
    {
        APIBundleFacetParams { common: self.common.clone(), facet_type: self.facet_type }
    }
}

/// The abstract value of API bundle facet creation parameters.
pub ghost struct APIBundleFacetParamsView {
    pub common: CommonFacetCreateParamsView,
    pub facet_type: SupportedFacetType,
}

impl View for APIBundleFacetParams {
    type V = APIBundleFacetParamsView;

    open spec fn view(&self) -> APIBundleFacetParamsView {
        APIBundleFacetParamsView { common: self.common@, facet_type: self.facet_type }
    }
}

/// The abstract value of facet creation parameters.
pub ghost enum FacetCreateParamsView {
    SourceBundle(SourceBundleFacetCreateParamsView),
    APIBundle(APIBundleFacetParamsView),
}

/// Parameters for creating one facet of either variant.
#[derive(Debug, PartialEq, Eq)]
pub enum FacetCreateParams {
    SourceBundle(SourceBundleFacetCreateParams),
    APIBundle(APIBundleFacetParams),
}

impl View for FacetCreateParams {
    type V = FacetCreateParamsView;

    open spec fn view(&self) -> FacetCreateParamsView {
        match self {
            FacetCreateParams::SourceBundle(p) => FacetCreateParamsView::SourceBundle(p@),
            FacetCreateParams::APIBundle(p) => FacetCreateParamsView::APIBundle(p@),
        }
    }
}

impl Clone for FacetCreateParams {
    fn clone(&self) -> (r: Self)
        ensures
            r@ == self@,
    {
        match self {
            FacetCreateParams::SourceBundle(p) => FacetCreateParams::SourceBundle(p.clone()),
            FacetCreateParams::APIBundle(p) => FacetCreateParams::APIBundle(p.clone()),
        }
    }
}

/// An ordered plan: the parameters of every facet to create, in the order
/// they are to be applied.
#[derive(Debug, PartialEq, Eq)]
pub struct FacetSetCreateParams {
    pub facets_params: Vec<FacetCreateParams>,
}

/// The views of a sequence of facet creation parameters.
pub open spec fn views_of_facet_params(ps: Seq<FacetCreateParams>) -> Seq<FacetCreateParamsView> {
    ps.map_values(|p: FacetCreateParams| p@)
}

impl View for FacetSetCreateParams {
    type V = Seq<FacetCreateParamsView>;

    open spec fn view(&self) -> Seq<FacetCreateParamsView> {
        views_of_facet_params(self.facets_params@)
    }
}

} // verus!
