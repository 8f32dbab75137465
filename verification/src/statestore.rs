//! Project state: the manifest persisted inside the repo itself, and the
//! local reference cache of known project URLs.

use vstd::prelude::*;

use crate::manifest::{
    expect_lit, parse_quoted, serialize_project, spec_quote, wf_project, write_quoted,
};
use crate::model::{InitializedProject, InitializedSource, SkootError};
use crate::service::source::SourceService;
use crate::strutil::{lemma_pref_concat, str_to_chars};

verus! {

/// Persists the project manifest inside the repository itself.
pub trait ProjectStateStore {
    /// Writes the serialized project to `./.skootrs` and commits and
    /// pushes the change.
    fn create(&self, project: InitializedProject) -> Result<(), SkootError>
        requires
            wf_project(project@),
    ;

    /// Reads the manifest back from the working copy.
    fn read(&self) -> Result<Option<InitializedProject>, SkootError>;

    /// Rewrites the manifest.
    fn update(&self, project: InitializedProject) -> Result<(), SkootError>
        requires
            wf_project(project@),
    ;
}

/// The manifest store backed by the project's own working copy.
#[derive(Debug)]
pub struct GitProjectStateStore<S: SourceService> {
    pub source: InitializedSource,
    pub source_service: S,
}

impl<S: SourceService> ProjectStateStore for GitProjectStateStore<S> {
    fn create(&self, project: InitializedProject) -> Result<(), SkootError> {
        let text = serialize_project(&project);
        self.source_service.write_file(
            self.source.clone(),
            "./".to_owned(),
            ".skootrs".to_owned(),
            text,
        )?;
        self.source_service.commit_and_push_changes(
            self.source.clone(),
            "Updated skootrs project state".to_owned(),
        )?;
        Ok(())
    }

    fn read(&self) -> Result<Option<InitializedProject>, SkootError> {
        let text = self.source_service.read_file(
            &self.source,
            "./".to_owned(),
            ".skootrs".to_owned(),
        )?;
        let project = crate::manifest::deserialize_project(text.as_str())?;
        Ok(Some(project))
    }

    fn update(&self, project: InitializedProject) -> Result<(), SkootError> {
        self.create(project)
    }
}

/// The URLs a cache holds, as plain character sequences.
pub open spec fn spec_cache_view(cache: Seq<String>) -> Seq<Seq<char>> {
    cache.map_values(|s: String| s@)
}

/// Whether a sequence of URLs contains the given one.
pub open spec fn spec_cache_contains(urls: Seq<Seq<char>>, url: Seq<char>) -> bool {
    exists|k: int| 0 <= k < urls.len() && urls[k] == url
}

/// The later elements of the cache file, each preceded by a comma.
pub open spec fn spec_write_cache_more(urls: Seq<Seq<char>>) -> Seq<char>
    decreases urls.len(),
{
    if urls.len() == 0 {
        Seq::empty()
    } else {
        ","@ + spec_quote(urls[0]) + spec_write_cache_more(urls.skip(1))
    }
}

/// The body of the cache file.
pub open spec fn spec_write_cache_items(urls: Seq<Seq<char>>) -> Seq<char> {
    if urls.len() == 0 {
        Seq::empty()
    } else {
        spec_quote(urls[0]) + spec_write_cache_more(urls.skip(1))
    }
}

/// The cache file: a JSON array of the known project URLs.
pub open spec fn spec_write_cache(urls: Seq<Seq<char>>) -> Seq<char> {
    "["@ + spec_write_cache_items(urls) + "]"@
}

/// Adding a URL at the end extends the comma-separated run by one.
proof fn lemma_cache_more_push(urls: Seq<Seq<char>>, x: Seq<char>)
    ensures
        spec_write_cache_more(urls.push(x)) == spec_write_cache_more(urls) + ","@ + spec_quote(x),
    decreases urls.len(),
{
    if urls.len() == 0 {
        assert(urls.push(x)[0] == x);
        assert(urls.push(x).skip(1) =~= Seq::<Seq<char>>::empty());
        assert(spec_write_cache_more(urls.push(x).skip(1)) =~= Seq::<char>::empty());
        assert(spec_write_cache_more(urls.push(x)) =~= spec_write_cache_more(urls) + ","@
            + spec_quote(x));
    } else {
        assert(urls.push(x).skip(1) =~= urls.skip(1).push(x));
        lemma_cache_more_push(urls.skip(1), x);
        assert(spec_write_cache_more(urls.push(x)) =~= spec_write_cache_more(urls) + ","@
            + spec_quote(x));
    }
}

/// The URL list with every occurrence of `url` removed, order kept.
pub open spec fn spec_remove_url(urls: Seq<Seq<char>>, url: Seq<char>) -> Seq<Seq<char>>
    decreases urls.len(),
{
    if urls.len() == 0 {
        Seq::empty()
    } else if urls[0] == url {
        spec_remove_url(urls.skip(1), url)
    } else {
        seq![urls[0]] + spec_remove_url(urls.skip(1), url)
    }
}

/// Removing distributes over appending one URL at the end.
proof fn lemma_remove_url_push(urls: Seq<Seq<char>>, url: Seq<char>, x: Seq<char>)
    ensures
        spec_remove_url(urls.push(x), url) == spec_remove_url(urls, url) + (if x == url {
            Seq::<Seq<char>>::empty()
        } else {
            seq![x]
        }),
    decreases urls.len(),
{
    let tail: Seq<Seq<char>> = if x == url {
        Seq::empty()
    } else {
        seq![x]
    };
    if urls.len() == 0 {
        assert(urls.push(x)[0] == x);
        assert(urls.push(x).skip(1) =~= Seq::<Seq<char>>::empty());
        assert(spec_remove_url(urls.push(x).skip(1), url) =~= Seq::<Seq<char>>::empty());
        assert(spec_remove_url(urls.push(x), url) =~= spec_remove_url(urls, url) + tail);
    } else {
        assert(urls.push(x).skip(1) =~= urls.skip(1).push(x));
        lemma_remove_url_push(urls.skip(1), url, x);
        assert(spec_remove_url(urls.push(x), url) =~= spec_remove_url(urls, url) + tail);
    }
}

/// The removed URL does not survive removal.
pub proof fn lemma_remove_url_absent(urls: Seq<Seq<char>>, url: Seq<char>)
    ensures
        !spec_cache_contains(spec_remove_url(urls, url), url),
    decreases urls.len(),
{
    if urls.len() > 0 {
        lemma_remove_url_absent(urls.skip(1), url);
        if spec_cache_contains(spec_remove_url(urls, url), url) {
            let k = choose|k: int|
                0 <= k < spec_remove_url(urls, url).len() && spec_remove_url(urls, url)[k] == url;
            if urls[0] != url {
                assert(spec_remove_url(urls.skip(1), url)[k - 1] == url);
            }
        }
    }
}

/// The local set of known project URLs, saved to a caller-chosen path.
/// The file work around it is the caller's: this type only carries and
/// encodes the set.
#[derive(Debug)]
pub struct InMemoryProjectReferenceCache {
    /// The path the cache is saved at.
    pub save_path: String,
    /// The known project URLs, in insertion order, without duplicates.
    pub cache: Vec<String>,
}

/// The operations of a project reference cache.  Resolving a cached URL
/// back to its project is the orchestrator's `get`; the cache itself only
/// carries the set of URLs.
pub trait ProjectReferenceCache {
    /// The URLs the cache holds, in insertion order.
    spec fn urls(&self) -> Seq<Seq<char>>;

    /// The path the cache is saved at.
    spec fn store_path(&self) -> Seq<char>;

    /// The known project URLs, exactly as held.
    fn list(&self) -> (r: Vec<String>)
        ensures
            spec_cache_view(r@) == self.urls(),
    ;

    /// Records a project URL; already-known URLs are kept once, new ones
    /// are appended, and nothing else changes.
    fn set(&mut self, repo_url: String)
        ensures
            final(self).store_path() == old(self).store_path(),
            final(self).urls() == (if spec_cache_contains(old(self).urls(), repo_url@) {
                old(self).urls()
            } else {
                old(self).urls().push(repo_url@)
            }),
    ;

    /// Forgets a project URL: every occurrence is removed, everything
    /// else survives in order.
    fn delete(&mut self, repo_url: String)
        ensures
            final(self).store_path() == old(self).store_path(),
            final(self).urls() == spec_remove_url(old(self).urls(), repo_url@),
            !spec_cache_contains(final(self).urls(), repo_url@),
    ;
}

impl InMemoryProjectReferenceCache {
    /// An empty cache to be saved at the given path.
    pub fn new(save_path: String) -> (r: Self)
        ensures
            r.cache@.len() == 0,
            r.save_path@ == save_path@,
    {
        InMemoryProjectReferenceCache { save_path, cache: Vec::new() }
    }

    /// Renders the cache as its JSON file content.
    pub fn save_string(&self) -> (r: String)
        ensures
            r@ == spec_write_cache(spec_cache_view(self.cache@)),
    {
        render_cache(&self.cache)
    }

    /// Loads the cache from its JSON file content.  Whenever the text is
    /// the rendering of some URL list, exactly that list is loaded; and
    /// whatever is loaded, the text was exactly its rendering.  A failure
    /// is a decoding error and leaves the cache unchanged.
    pub fn load_string(&mut self, s: &str) -> (r: Result<(), SkootError>)
        ensures
            final(self).save_path@ == old(self).save_path@,
            forall|urls: Seq<Seq<char>>|
                s@ == #[trigger] spec_write_cache(urls) ==> (r is Ok && spec_cache_view(
                    final(self).cache@,
                ) == urls),
            r is Ok ==> s@ == spec_write_cache(spec_cache_view(final(self).cache@)),
            r matches Err(e) ==> e is Decoding && final(self).cache@ == old(self).cache@,
    {
        let v = str_to_chars(s);
        proof {
            assert(v@.skip(0) =~= v@);
        }
        match parse_cache(&v, 0) {
            Some((urls, n)) => {
                if n == v.len() {
                    let rendered = render_cache(&urls);
                    if crate::strutil::str_eq(rendered.as_str(), s) {
                        self.cache = urls;
                        Ok(())
                    } else {
                        proof {
                            assert forall|urls2: Seq<Seq<char>>|
                                s@ == spec_write_cache(urls2) implies false by {
                                assert(spec_write_cache(urls2).is_prefix_of(v@.skip(0)));
                            }
                        }
                        Err(
                            SkootError::Decoding(
                                "cache file is not in canonical form".to_owned(),
                            ),
                        )
                    }
                } else {
                    proof {
                        assert forall|urls2: Seq<Seq<char>>|
                            s@ == spec_write_cache(urls2) implies false by {
                            assert(spec_write_cache(urls2).is_prefix_of(v@.skip(0)));
                        }
                    }
                    Err(SkootError::Decoding("trailing characters in cache file".to_owned()))
                }
            },
            None => {
                proof {
                    assert forall|urls2: Seq<Seq<char>>|
                        s@ == spec_write_cache(urls2) implies false by {
                        assert(spec_write_cache(urls2).is_prefix_of(v@.skip(0)));
                    }
                }
                Err(SkootError::Decoding("malformed cache file".to_owned()))
            },
        }
    }

    /// Whether the cache holds the URL.
    pub fn contains(&self, repo_url: &String) -> (r: bool)
        ensures
            r == spec_cache_contains(spec_cache_view(self.cache@), repo_url@),
    {
        let mut k: usize = 0;
        while k < self.cache.len()
            invariant
                k <= self.cache.len(),
                forall|j: int|
                    0 <= j < k ==> spec_cache_view(self.cache@)[j] != repo_url@,
            decreases self.cache.len() - k,
        {
            if crate::strutil::str_eq(self.cache[k].as_str(), repo_url.as_str()) {
                assert(spec_cache_view(self.cache@)[k as int] == repo_url@);
                return true;
            }
            k = k + 1;
        }
        false
    }
}

impl ProjectReferenceCache for InMemoryProjectReferenceCache {
    open spec fn urls(&self) -> Seq<Seq<char>> {
        spec_cache_view(self.cache@)
    }

    open spec fn store_path(&self) -> Seq<char> {
        self.save_path@
    }

    fn list(&self) -> (r: Vec<String>) {
        let mut r: Vec<String> = Vec::new();
        let mut k: usize = 0;
        while k < self.cache.len()
            invariant
                k <= self.cache@.len(),
                r@.len() == k,
                forall|j: int| 0 <= j < k ==> (#[trigger] r@[j])@ == self.cache@[j]@,
            decreases self.cache.len() - k,
        {
            r.push(self.cache[k].clone());
            k = k + 1;
        }
        proof {
            assert(spec_cache_view(r@) =~= spec_cache_view(self.cache@));
        }
        r
    }

    fn set(&mut self, repo_url: String) {
        let ghost pre = self.cache@;
        if !self.contains(&repo_url) {
            self.cache.push(repo_url);
            proof {
                assert(spec_cache_view(self.cache@) =~= spec_cache_view(pre).push(
                    spec_cache_view(self.cache@)[pre.len() as int],
                ));
            }
        }
    }

    fn delete(&mut self, repo_url: String) {
        let ghost all = spec_cache_view(self.cache@);
        let mut kept: Vec<String> = Vec::new();
        let mut k: usize = 0;
        while k < self.cache.len()
            invariant
                k <= self.cache@.len(),
                all == spec_cache_view(self.cache@),
                all.len() == self.cache@.len(),
                spec_cache_view(kept@) == spec_remove_url(all.take(k as int), repo_url@),
            decreases self.cache.len() - k,
        {
            let ghost pre = kept@;
            if !crate::strutil::str_eq(self.cache[k].as_str(), repo_url.as_str()) {
                kept.push(self.cache[k].clone());
            }
            proof {
                assert(all.take(k + 1) =~= all.take(k as int).push(all[k as int]));
                lemma_remove_url_push(all.take(k as int), repo_url@, all[k as int]);
                assert(all[k as int] == self.cache@[k as int]@);
                assert(spec_cache_view(kept@) =~= spec_remove_url(all.take(k + 1), repo_url@));
            }
            k = k + 1;
        }
        proof {
            assert(all.take(all.len() as int) =~= all);
            lemma_remove_url_absent(all, repo_url@);
        }
        self.cache = kept;
    }
}

/// Renders a URL list as the cache file's JSON array.
fn render_cache(cache: &Vec<String>) -> (r: String)
    ensures
        r@ == spec_write_cache(spec_cache_view(cache@)),
{
    let ghost urls = spec_cache_view(cache@);
    let mut out = "[".to_owned();
    let mut k: usize = 0;
    proof {
        assert(urls.take(0) =~= Seq::<Seq<char>>::empty());
        assert(out@ =~= "["@ + spec_write_cache_items(urls.take(0)));
    }
    while k < cache.len()
        invariant
            k <= cache.len(),
            urls == spec_cache_view(cache@),
            urls.len() == cache@.len(),
            out@ == "["@ + spec_write_cache_items(urls.take(k as int)),
        decreases cache.len() - k,
    {
        if k > 0 {
            out.append(",");
        }
        write_quoted(&mut out, cache[k].as_str());
        proof {
            if k == 0 {
                assert(urls.take(1)[0] == urls[0]);
                assert(urls.take(1).skip(1) =~= Seq::<Seq<char>>::empty());
                assert(spec_write_cache_more(urls.take(1).skip(1)) =~= Seq::<char>::empty());
                assert(out@ =~= "["@ + spec_write_cache_items(urls.take(1)));
            } else {
                assert(urls.take(k + 1).skip(1) =~= urls.take(k as int).skip(1).push(
                    urls[k as int],
                ));
                lemma_cache_more_push(urls.take(k as int).skip(1), urls[k as int]);
                assert(urls.take(k + 1)[0] == urls[0]);
                assert(urls.take(k as int)[0] == urls[0]);
                assert(out@ =~= "["@ + spec_write_cache_items(urls.take(k + 1)));
            }
        }
        k = k + 1;
    }
    out.append("]");
    proof {
        assert(urls.take(urls.len() as int) =~= urls);
        assert(out@ =~= spec_write_cache(urls));
    }
    out
}

/// Parses the cache file's JSON array of strings.
#[verifier::rlimit(100)]
#[verifier::loop_isolation(false)]
fn parse_cache(v: &Vec<char>, i: usize) -> (r: Option<(Vec<String>, usize)>)
    requires
        i <= v.len(),
    ensures
        r matches Some(p) ==> i <= p.1 <= v.len(),
        forall|urls: Seq<Seq<char>>|
            (#[trigger] spec_write_cache(urls)).is_prefix_of(v@.skip(i as int)) ==> (r matches
            Some(p) && spec_cache_view(p.0@) == urls && p.1 == i + spec_write_cache(urls).len()),
{
    proof {
        reveal_strlit("[");
        reveal_strlit("]");
        reveal_strlit(",");
    }
    let n1 = match expect_lit(v, i, "[") {
        Some(n) => n,
        None => {
            proof {
                assert forall|urls: Seq<Seq<char>>|
                    (#[trigger] spec_write_cache(urls)).is_prefix_of(v@.skip(i as int)) implies
                false by {
                    assert(spec_write_cache(urls) =~= "["@ + (spec_write_cache_items(urls)
                        + "]"@));
                    lemma_chop_cache("["@, spec_write_cache_items(urls) + "]"@, v@, i as int);
                }
            }
            return None;
        },
    };
    proof {
        assert forall|urls: Seq<Seq<char>>|
            (#[trigger] spec_write_cache(urls)).is_prefix_of(v@.skip(i as int)) implies (
        spec_write_cache_items(urls) + "]"@).is_prefix_of(v@.skip(n1 as int)) by {
            assert(spec_write_cache(urls) =~= "["@ + (spec_write_cache_items(urls) + "]"@));
            lemma_chop_cache("["@, spec_write_cache_items(urls) + "]"@, v@, i as int);
        }
    }
    match expect_lit(v, n1, "]") {
        Some(n2) => {
            let out: Vec<String> = Vec::new();
            proof {
                assert forall|urls: Seq<Seq<char>>|
                    (#[trigger] spec_write_cache(urls)).is_prefix_of(v@.skip(i as int)) implies (
                spec_cache_view(out@) == urls && n2 == i + spec_write_cache(urls).len()) by {
                    if urls.len() > 0 {
                        lemma_chop_cache(
                            spec_quote(urls[0]),
                            spec_write_cache_more(urls.skip(1)) + "]"@,
                            v@,
                            n1 as int,
                        );
                        lemma_pref_index_cache(spec_quote(urls[0]), v@.skip(n1 as int), 0);
                        lemma_pref_index_cache("]"@, v@.skip(n1 as int), 0);
                    }
                    assert(spec_cache_view(out@) =~= urls);
                }
            }
            return Some((out, n2));
        },
        None => {
        },
    }
    let first = match parse_quoted(v, n1) {
        Some(q) => q,
        None => {
            proof {
                assert forall|urls: Seq<Seq<char>>|
                    (#[trigger] spec_write_cache(urls)).is_prefix_of(v@.skip(i as int)) implies
                false by {
                    if urls.len() == 0 {
                        assert(spec_write_cache_items(urls) =~= Seq::<char>::empty());
                        assert((spec_write_cache_items(urls) + "]"@) =~= "]"@);
                    } else {
                        assert((spec_write_cache_items(urls) + "]"@) =~= spec_quote(urls[0]) + (
                        spec_write_cache_more(urls.skip(1)) + "]"@));
                        lemma_chop_cache(
                            spec_quote(urls[0]),
                            spec_write_cache_more(urls.skip(1)) + "]"@,
                            v@,
                            n1 as int,
                        );
                    }
                }
            }
            return None;
        },
    };
    let mut out: Vec<String> = Vec::new();
    out.push(first.0);
    let mut cur: usize = first.1;
    proof {
        assert forall|urls: Seq<Seq<char>>|
            (#[trigger] spec_write_cache(urls)).is_prefix_of(v@.skip(i as int)) implies {
            &&& out@.len() <= urls.len()
            &&& spec_cache_view(out@) == urls.take(out@.len() as int)
            &&& (spec_write_cache_more(urls.skip(out@.len() as int)) + "]"@).is_prefix_of(
                v@.skip(cur as int),
            )
            &&& cur + spec_write_cache_more(urls.skip(out@.len() as int)).len() + 1 == i
                + spec_write_cache(urls).len()
        } by {
            if urls.len() == 0 {
                assert(spec_write_cache_items(urls) =~= Seq::<char>::empty());
                assert((spec_write_cache_items(urls) + "]"@) =~= "]"@);
            } else {
                assert((spec_write_cache_items(urls) + "]"@) =~= spec_quote(urls[0]) + (
                spec_write_cache_more(urls.skip(1)) + "]"@));
                lemma_chop_cache(
                    spec_quote(urls[0]),
                    spec_write_cache_more(urls.skip(1)) + "]"@,
                    v@,
                    n1 as int,
                );
                assert(spec_cache_view(out@) =~= urls.take(1));
            }
        }
    }
    loop
        invariant
            i < cur <= v.len(),
            out.len() >= 1,
            forall|urls: Seq<Seq<char>>|
                (#[trigger] spec_write_cache(urls)).is_prefix_of(v@.skip(i as int)) ==> {
                    &&& out@.len() <= urls.len()
                    &&& spec_cache_view(out@) == urls.take(out@.len() as int)
                    &&& (spec_write_cache_more(urls.skip(out@.len() as int)) + "]"@).is_prefix_of(
                        v@.skip(cur as int),
                    )
                    &&& cur + spec_write_cache_more(urls.skip(out@.len() as int)).len() + 1 == i
                        + spec_write_cache(urls).len()
                },
        decreases v.len() - cur,
    {
        match expect_lit(v, cur, ",") {
            Some(c2) => {
                let nxt = match parse_quoted(v, c2) {
                    Some(q) => q,
                    None => {
                        proof {
                            assert forall|urls: Seq<Seq<char>>|
                                (#[trigger] spec_write_cache(urls)).is_prefix_of(
                                    v@.skip(i as int),
                                ) implies false by {
                                lemma_cache_step(v@, cur as int, urls, out@.len() as int);
                            }
                        }
                        return None;
                    },
                };
                let ghost m = out@.len() as int;
                out.push(nxt.0);
                let ghost oldcur = cur as int;
                cur = nxt.1;
                proof {
                    assert forall|urls: Seq<Seq<char>>|
                        (#[trigger] spec_write_cache(urls)).is_prefix_of(
                            v@.skip(i as int),
                        ) implies {
                        &&& out@.len() <= urls.len()
                        &&& spec_cache_view(out@) == urls.take(out@.len() as int)
                        &&& (spec_write_cache_more(urls.skip(out@.len() as int))
                            + "]"@).is_prefix_of(v@.skip(cur as int))
                        &&& cur + spec_write_cache_more(urls.skip(out@.len() as int)).len() + 1
                            == i + spec_write_cache(urls).len()
                    } by {
                        lemma_cache_step(v@, oldcur, urls, m);
                        assert(spec_cache_view(out@) =~= urls.take(m + 1));
                    }
                }
            },
            None => {
                match expect_lit(v, cur, "]") {
                    Some(c2) => {
                        proof {
                            assert forall|urls: Seq<Seq<char>>|
                                (#[trigger] spec_write_cache(urls)).is_prefix_of(
                                    v@.skip(i as int),
                                ) implies (spec_cache_view(out@) == urls && c2 == i
                                + spec_write_cache(urls).len()) by {
                                let m = out@.len() as int;
                                if m < urls.len() {
                                    lemma_cache_more_unfold(v@, cur as int, urls, m);
                                }
                                assert(m == urls.len());
                                assert(spec_write_cache_more(urls.skip(m)) =~= Seq::<
                                    char,
                                >::empty());
                                assert(spec_cache_view(out@) =~= urls);
                            }
                        }
                        return Some((out, c2));
                    },
                    None => {
                        proof {
                            assert forall|urls: Seq<Seq<char>>|
                                (#[trigger] spec_write_cache(urls)).is_prefix_of(
                                    v@.skip(i as int),
                                ) implies false by {
                                let m = out@.len() as int;
                                if m < urls.len() {
                                    lemma_cache_more_unfold(v@, cur as int, urls, m);
                                } else {
                                    assert(spec_write_cache_more(urls.skip(m)) =~= Seq::<
                                        char,
                                    >::empty());
                                    assert((spec_write_cache_more(urls.skip(m)) + "]"@) =~= "]"@);
                                }
                            }
                        }
                        return None;
                    },
                }
            },
        }
    }
}

/// When more URLs remain, the run at `cur` starts with a comma.
proof fn lemma_cache_more_unfold(s: Seq<char>, cur: int, urls: Seq<Seq<char>>, m: int)
    requires
        0 <= cur <= s.len(),
        0 <= m < urls.len(),
        (spec_write_cache_more(urls.skip(m)) + "]"@).is_prefix_of(s.skip(cur)),
    ensures
        ","@.is_prefix_of(s.skip(cur)),
        (spec_quote(urls[m]) + (spec_write_cache_more(urls.skip(m + 1)) + "]"@)).is_prefix_of(
            s.skip(cur + 1),
        ),
{
    reveal_strlit(",");
    assert(urls.skip(m)[0] == urls[m]);
    assert(urls.skip(m).skip(1) =~= urls.skip(m + 1));
    assert((spec_write_cache_more(urls.skip(m)) + "]"@) =~= ","@ + (spec_quote(urls[m]) + (
    spec_write_cache_more(urls.skip(m + 1)) + "]"@)));
    lemma_chop_cache(
        ","@,
        spec_quote(urls[m]) + (spec_write_cache_more(urls.skip(m + 1)) + "]"@),
        s,
        cur,
    );
}

/// One step of the cache array.
proof fn lemma_cache_step(s: Seq<char>, cur: int, urls: Seq<Seq<char>>, m: int)
    requires
        0 <= cur <= s.len(),
        1 <= m <= urls.len(),
        ","@.is_prefix_of(s.skip(cur)),
        (spec_write_cache_more(urls.skip(m)) + "]"@).is_prefix_of(s.skip(cur)),
    ensures
        m < urls.len(),
        spec_quote(urls[m]).is_prefix_of(s.skip(cur + 1)),
        (spec_write_cache_more(urls.skip(m + 1)) + "]"@).is_prefix_of(
            s.skip(cur + 1 + spec_quote(urls[m]).len()),
        ),
        spec_write_cache_more(urls.skip(m)).len() == 1 + spec_quote(urls[m]).len()
            + spec_write_cache_more(urls.skip(m + 1)).len(),
{
    reveal_strlit(",");
    reveal_strlit("]");
    if m == urls.len() {
        assert(spec_write_cache_more(urls.skip(m)) =~= Seq::<char>::empty());
        assert((spec_write_cache_more(urls.skip(m)) + "]"@) =~= "]"@);
        lemma_pref_index_cache("]"@, s.skip(cur), 0);
        lemma_pref_index_cache(","@, s.skip(cur), 0);
    }
    lemma_cache_more_unfold(s, cur, urls, m);
    lemma_chop_cache(
        spec_quote(urls[m]),
        spec_write_cache_more(urls.skip(m + 1)) + "]"@,
        s,
        cur + 1,
    );
    assert(urls.skip(m).skip(1) =~= urls.skip(m + 1));
}

/// Splits a composite prefix, as in the manifest parsers.
proof fn lemma_chop_cache(a: Seq<char>, b: Seq<char>, s: Seq<char>, i: int)
    requires
        0 <= i <= s.len(),
        (a + b).is_prefix_of(s.skip(i)),
    ensures
        a.is_prefix_of(s.skip(i)),
        i + a.len() <= s.len(),
        b.is_prefix_of(s.skip(i + a.len())),
{
    lemma_pref_concat(a, b, s.skip(i));
    assert(s.skip(i).skip(a.len() as int) =~= s.skip(i + a.len()));
}

/// A prefix agrees with the whole sequence at every index it covers.
proof fn lemma_pref_index_cache(p: Seq<char>, s: Seq<char>, m: int)
    requires
        p.is_prefix_of(s),
        0 <= m < p.len(),
    ensures
        p[m] == s[m],
{
    assert(s.subrange(0, p.len() as int)[m] == s[m]);
}

} // verus!
