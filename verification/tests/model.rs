//! Tests for the data model: URL parsing, facet map keys, source file
//! string forms, hashing, and the manifest codec.

use skootrs::facet::{
    APIBundleFacet, APIContent, InitializedFacet, SourceBundleFacet, SourceFile,
    SupportedFacetType,
};
use skootrs::hash::sha256_hex;
use skootrs::manifest::{deserialize_project, manifest_round_trip, serialize_project};
use skootrs::model::{
    FacetMapKey, GithubUser, InitializedEcosystem, InitializedGithubRepo, InitializedGo,
    InitializedProject, InitializedRepo, InitializedSource, SkootError,
};
use skootrs::strutil::{contains_str, dec_i64};
use sha2::Digest;

#[test]
fn test_initialized_repo_try_from() {
    let repo: InitializedRepo =
        InitializedRepo::try_from("https://github.com/kusaridev/skootrs".to_string()).unwrap();
    assert_eq!(repo.host_url(), "https://github.com");
    assert_eq!(repo.full_url(), "https://github.com/kusaridev/skootrs");
}

#[test]
fn unknown_host_is_rejected_as_unsupported() {
    let result = InitializedRepo::try_from("https://gitlab.com/alice/demo".to_string());
    assert!(matches!(result, Err(SkootError::Unsupported(_))));
}

#[test]
fn malformed_url_is_rejected_as_input_error() {
    let result = InitializedRepo::try_from("not a url".to_string());
    assert!(matches!(result, Err(SkootError::Input(_))));
    let result = InitializedRepo::try_from("https://github.com/only-owner".to_string());
    assert!(matches!(result, Err(SkootError::Input(_))));
}

#[test]
fn facet_map_key_parses_type_and_name() {
    assert_eq!(
        FacetMapKey::parse("Type: Readme"),
        Some(FacetMapKey::Type(SupportedFacetType::Readme))
    );
    assert_eq!(FacetMapKey::parse("Name: x"), Some(FacetMapKey::Name("x".to_string())));
    assert_eq!(FacetMapKey::parse("Type: NotAFacet"), None);
    assert_eq!(FacetMapKey::parse("Readme"), None);
}

#[test]
fn facet_map_key_round_trips_both_ways() {
    let keys = vec![
        FacetMapKey::Type(SupportedFacetType::SecurityInsights),
        FacetMapKey::Type(SupportedFacetType::SLSABuild),
        FacetMapKey::Name("custom facet".to_string()),
    ];
    for k in keys {
        let s = k.encode();
        assert_eq!(FacetMapKey::parse(&s), Some(k.clone()));
        let reparsed = FacetMapKey::parse(&s).unwrap();
        assert_eq!(reparsed.encode(), s);
    }
    assert_eq!(
        FacetMapKey::Type(SupportedFacetType::Readme).encode(),
        "Type: Readme"
    );
    assert_eq!(FacetMapKey::Name("x".to_string()).encode(), "Name: x");
}

#[test]
fn source_file_string_form_round_trips() {
    let f = SourceFile {
        name: "README.md".to_string(),
        path: "./".to_string(),
        hash: "abc123".to_string(),
    };
    let s = f.encode();
    assert_eq!(s, "README.md:./:abc123");
    assert_eq!(SourceFile::parse(&s), Some(f));
    assert!(SourceFile::parse("only:two").is_none());
    assert!(SourceFile::parse("a:b:c:d").is_none());
}

#[test]
fn facet_type_names_round_trip() {
    let all = vec![
        SupportedFacetType::Readme,
        SupportedFacetType::SecurityInsights,
        SupportedFacetType::SLSABuild,
        SupportedFacetType::BranchProtection,
        SupportedFacetType::VulnerabilityReporting,
        SupportedFacetType::Other,
    ];
    for t in all {
        let name = t.name();
        assert_eq!(SupportedFacetType::parse(&name), Some(t));
    }
    assert_eq!(SupportedFacetType::parse("NotAFacet"), None);
}

#[test]
fn sha256_hex_matches_known_digests() {
    assert_eq!(
        sha256_hex(""),
        "e3b0c44298fc1c149afbf4c8996fb92427ae41e4649b934ca495991b7852b855"
    );
    assert_eq!(
        sha256_hex("abc"),
        "ba7816bf8f01cfea414140de5dae2223b00361a396177a9cb410ff61f20015ad"
    );
}

#[test]
fn sha256_hex_agrees_with_sha2_directly() {
    let content = "version: 2\nupdates: []\n";
    let mut hasher = sha2::Sha256::new();
    hasher.update(content.as_bytes());
    let expected = format!("{:x}", hasher.finalize());
    assert_eq!(sha256_hex(content), expected);
}

#[test]
fn decimal_rendering_is_exact() {
    assert_eq!(dec_i64(2024), "2024");
    assert_eq!(dec_i64(0), "0");
    assert_eq!(dec_i64(-5), "-5");
}

#[test]
fn contains_str_finds_substrings() {
    assert!(contains_str("app-linux-amd64.spdx.sbom.json", ".spdx."));
    assert!(!contains_str("app.tar.gz", ".spdx."));
    assert!(contains_str("anything", ""));
}

fn demo_project() -> InitializedProject {
    let mut facets = Vec::new();
    facets.push((
        FacetMapKey::Type(SupportedFacetType::Readme),
        InitializedFacet::SourceBundle(SourceBundleFacet {
            source_files: Some(vec![SourceFile {
                name: "README.md".to_string(),
                path: "./".to_string(),
                hash: "00ff".to_string(),
            }]),
            facet_type: SupportedFacetType::Readme,
            source_files_content: None,
        }),
    ));
    facets.push((
        FacetMapKey::Type(SupportedFacetType::BranchProtection),
        InitializedFacet::APIBundle(APIBundleFacet {
            apis: vec![APIContent {
                name: "Enforce Branch Protection".to_string(),
                url: "/repos/alice/demo/branches/main/protection".to_string(),
                response: "{\"ok\": true,\n \"note\": \"line\\nbreaks \\\"quoted\\\"\"}"
                    .to_string(),
            }],
            facet_type: SupportedFacetType::BranchProtection,
        }),
    ));
    InitializedProject {
        repo: InitializedRepo::Github(InitializedGithubRepo {
            name: "demo".to_string(),
            organization: GithubUser::User("alice".to_string()),
        }),
        ecosystem: InitializedEcosystem::Go(InitializedGo {
            name: "demo".to_string(),
            host: "github.com/alice".to_string(),
        }),
        source: InitializedSource { path: "/tmp/demo".to_string() },
        facets,
    }
}

#[test]
fn manifest_round_trips_structurally() {
    let p = demo_project();
    let text = serialize_project(&p);
    let q = deserialize_project(&text).unwrap();
    assert_eq!(q, p);
}

#[test]
fn manifest_round_trip_witness_succeeds() {
    let p = demo_project();
    let q = manifest_round_trip(&p).unwrap();
    assert_eq!(q, p);
}

#[test]
fn manifest_rejects_garbage() {
    assert!(deserialize_project("").is_err());
    assert!(deserialize_project("{}").is_err());
    let p = demo_project();
    let mut text = serialize_project(&p);
    text.push('x');
    assert!(deserialize_project(&text).is_err());
}

#[test]
fn manifest_rejects_non_canonical_escapes() {
    let p = demo_project();
    let text = serialize_project(&p);
    // the response's newline is canonically escaped as \n; spelling it
    // \u000a parses to the same project but is not the canonical form
    assert!(contains_str(&text, "\\n"));
    let variant = text.replacen("\\n", "\\u000a", 1);
    assert!(matches!(
        deserialize_project(&variant),
        Err(SkootError::Decoding(_))
    ));
}

#[test]
fn source_file_round_trip_witness() {
    let f = SourceFile {
        name: "main.go".to_string(),
        path: "./".to_string(),
        hash: "00ff".to_string(),
    };
    let f2 = skootrs::facet::source_file_round_trip(&f).unwrap();
    assert_eq!(f2, f);
}
