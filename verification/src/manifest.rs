//! The `.skootrs` manifest format: a JSON encoding of an initialized
//! project, written to the repository root on the default branch.
//!
//! The writer emits one canonical form; the parser accepts it back.  Every
//! parser carries the completeness contract that makes the round trip a
//! theorem: whenever the input starts with the encoding of a well-formed
//! value, exactly that value (and nothing else) is returned.

use vstd::prelude::*;

use crate::facet::{
    spec_facet_type_name, spec_source_file_string, views_of_apis, views_of_files, wf_source_file,
    APIBundleFacetView, APIContent, APIContentView, InitializedFacet, InitializedFacetView,
    SourceBundleFacetView,
    SourceFile, SourceFileView, SupportedFacetType,
};
use crate::model::{
    spec_fmk_string, views_of_facets, wf_fmk, FacetMapKey, FacetMapKeyView, GithubUser,
    GithubUserView, InitializedEcosystem, InitializedEcosystemView, InitializedProject,
    InitializedGithubRepo, InitializedProjectView, InitializedRepo, InitializedRepoView,
    InitializedSource,
    InitializedSourceView, SkootError,
};
use crate::strutil::{chars_to_string, lemma_pref_concat, push_char, str_to_chars};

verus! {

/// The lowercase hex digit for `n`.
pub open spec fn hex_digit(n: int) -> char {
    if n == 0 {
        '0'
    } else if n == 1 {
        '1'
    } else if n == 2 {
        '2'
    } else if n == 3 {
        '3'
    } else if n == 4 {
        '4'
    } else if n == 5 {
        '5'
    } else if n == 6 {
        '6'
    } else if n == 7 {
        '7'
    } else if n == 8 {
        '8'
    } else if n == 9 {
        '9'
    } else if n == 10 {
        'a'
    } else if n == 11 {
        'b'
    } else if n == 12 {
        'c'
    } else if n == 13 {
        'd'
    } else if n == 14 {
        'e'
    } else {
        'f'
    }
}

/// The escape sequence for one character inside a JSON string: quotes and
/// backslashes are escaped, common control characters use their short
/// forms, the remaining control characters use `\u00XX`, and every other
/// character stands for itself.
pub open spec fn spec_esc_char(c: char) -> Seq<char> {
    if c == '"' {
        seq!['\\', '"']
    } else if c == '\\' {
        seq!['\\', '\\']
    } else if c == '\n' {
        seq!['\\', 'n']
    } else if c == '\r' {
        seq!['\\', 'r']
    } else if c == '\t' {
        seq!['\\', 't']
    } else if (c as u32) < 0x20 {
        seq!['\\', 'u', '0', '0', hex_digit((c as u32) as int / 16), hex_digit((c as u32) as int % 16)]
    } else {
        seq![c]
    }
}

/// The escaped body of a JSON string.
pub open spec fn spec_esc(s: Seq<char>) -> Seq<char>
    decreases s.len(),
{
    if s.len() == 0 {
        Seq::empty()
    } else {
        spec_esc_char(s[0]) + spec_esc(s.skip(1))
    }
}

/// A whole JSON string: the escaped body between double quotes.
pub open spec fn spec_quote(s: Seq<char>) -> Seq<char> {
    seq!['"'] + spec_esc(s) + seq!['"']
}

/// Escaping distributes over appending one character at the end.
pub proof fn lemma_esc_push(s: Seq<char>, c: char)
    ensures
        spec_esc(s.push(c)) == spec_esc(s) + spec_esc_char(c),
    decreases s.len(),
{
    if s.len() == 0 {
        assert(s.push(c)[0] == c);
        assert(s.push(c).skip(1) =~= Seq::<char>::empty());
        assert(spec_esc(s.push(c).skip(1)) =~= Seq::<char>::empty());
        assert(spec_esc(s.push(c)) =~= spec_esc_char(c) + spec_esc(s.push(c).skip(1)));
        assert(spec_esc(s.push(c)) =~= spec_esc_char(c));
        assert(spec_esc(s) + spec_esc_char(c) =~= spec_esc_char(c));
    } else {
        assert(s.push(c).skip(1) =~= s.skip(1).push(c));
        lemma_esc_push(s.skip(1), c);
        assert(spec_esc(s.push(c)) =~= spec_esc(s) + spec_esc_char(c));
    }
}

/// The first character of an escape sequence is never a bare quote.
proof fn lemma_esc_char_first(c: char)
    ensures
        spec_esc_char(c).len() >= 1,
        spec_esc_char(c)[0] != '"',
        spec_esc_char(c)[0] == '\\' || spec_esc_char(c) == seq![c],
{
}

/// The lowercase hex digit for `n`, executable form.
fn hex_digit_exec(n: u32) -> (r: char)
    requires
        n < 16,
    ensures
        r == hex_digit(n as int),
{
    if n == 0 {
        '0'
    } else if n == 1 {
        '1'
    } else if n == 2 {
        '2'
    } else if n == 3 {
        '3'
    } else if n == 4 {
        '4'
    } else if n == 5 {
        '5'
    } else if n == 6 {
        '6'
    } else if n == 7 {
        '7'
    } else if n == 8 {
        '8'
    } else if n == 9 {
        '9'
    } else if n == 10 {
        'a'
    } else if n == 11 {
        'b'
    } else if n == 12 {
        'c'
    } else if n == 13 {
        'd'
    } else if n == 14 {
        'e'
    } else {
        'f'
    }
}

/// The value of a lowercase hex digit character.
fn hex_val(c: char) -> (r: Option<u32>)
    ensures
        forall|x: int| 0 <= x < 16 && c == hex_digit(x) ==> r == Some(x as u32),
        r matches Some(x) ==> x < 16 && c == hex_digit(x as int),
{
    if c == '0' {
        Some(0)
    } else if c == '1' {
        Some(1)
    } else if c == '2' {
        Some(2)
    } else if c == '3' {
        Some(3)
    } else if c == '4' {
        Some(4)
    } else if c == '5' {
        Some(5)
    } else if c == '6' {
        Some(6)
    } else if c == '7' {
        Some(7)
    } else if c == '8' {
        Some(8)
    } else if c == '9' {
        Some(9)
    } else if c == 'a' {
        Some(10)
    } else if c == 'b' {
        Some(11)
    } else if c == 'c' {
        Some(12)
    } else if c == 'd' {
        Some(13)
    } else if c == 'e' {
        Some(14)
    } else if c == 'f' {
        Some(15)
    } else {
        None
    }
}

/// The character with the given code, for codes below 256.
fn char_from_code(code: u32) -> (c: char)
    requires
        code < 256,
    ensures
        (c as u32) == code,
{
    let b = code as u8;
    b as char
}

/// Appends the quoted, escaped form of `s` to `out`.
pub fn write_quoted(out: &mut String, s: &str)
    ensures
        final(out)@ == old(out)@ + spec_quote(s@),
{
    push_char(out, '"');
    let cs = str_to_chars(s);
    let mut i: usize = 0;
    while i < cs.len()
        invariant
            i <= cs.len(),
            cs@ == s@,
            out@ == old(out)@ + seq!['"'] + spec_esc(s@.take(i as int)),
        decreases cs.len() - i,
    {
        let c = cs[i];
        if c == '"' {
            push_char(out, '\\');
            push_char(out, '"');
        } else if c == '\\' {
            push_char(out, '\\');
            push_char(out, '\\');
        } else if c == '\n' {
            push_char(out, '\\');
            push_char(out, 'n');
        } else if c == '\r' {
            push_char(out, '\\');
            push_char(out, 'r');
        } else if c == '\t' {
            push_char(out, '\\');
            push_char(out, 't');
        } else if (c as u32) < 0x20 {
            push_char(out, '\\');
            push_char(out, 'u');
            push_char(out, '0');
            push_char(out, '0');
            push_char(out, hex_digit_exec((c as u32) / 16));
            push_char(out, hex_digit_exec((c as u32) % 16));
        } else {
            push_char(out, c);
        }
        proof {
            lemma_esc_push(s@.take(i as int), c);
            assert(s@.take(i as int).push(c) =~= s@.take(i + 1));
            assert(out@ =~= old(out)@ + seq!['"'] + spec_esc(s@.take(i + 1)));
        }
        i = i + 1;
    }
    proof {
        assert(s@.take(cs.len() as int) =~= s@);
    }
    push_char(out, '"');
    proof {
        assert(final(out)@ =~= old(out)@ + spec_quote(s@));
    }
}

/// Parses a quoted JSON string starting at `i`. Whenever the input starts
/// with the canonical encoding of some string, exactly that string is
/// returned, together with the position just past its closing quote.
#[verifier::rlimit(50)]
pub fn parse_quoted(v: &Vec<char>, i: usize) -> (r: Option<(String, usize)>)
    requires
        i <= v.len(),
    ensures
        r matches Some(p) ==> i < p.1 <= v.len(),
        forall|sv: Seq<char>|
            (#[trigger] spec_quote(sv)).is_prefix_of(v@.skip(i as int)) ==> (r matches Some(p)
                && p.0@ == sv && p.1 == i + spec_quote(sv).len()),
{
    if i == v.len() || v[i] != '"' {
        proof {
            assert forall|sv: Seq<char>|
                (#[trigger] spec_quote(sv)).is_prefix_of(v@.skip(i as int)) implies false by {
                let q = spec_quote(sv);
                assert(q.len() >= 2);
                assert(q[0] == '"');
                lemma_pref_index(q, v@.skip(i as int), 0);
                assert(v@.skip(i as int)[0] == v@[i as int]);
            }
        }
        return None;
    }
    let mut acc: Vec<char> = Vec::new();
    let mut j: usize = i + 1;
    proof {
        assert forall|sv: Seq<char>|
            (#[trigger] spec_quote(sv)).is_prefix_of(v@.skip(i as int)) implies {
            &&& acc@.len() <= sv.len()
            &&& acc@ == sv.take(acc@.len() as int)
            &&& (spec_esc(sv.skip(acc@.len() as int)) + seq!['"']).is_prefix_of(v@.skip(j as int))
            &&& j == i + 1 + spec_esc(sv.take(acc@.len() as int)).len()
        } by {
            assert(spec_quote(sv) =~= seq!['"'] + (spec_esc(sv) + seq!['"']));
            lemma_pref_concat(seq!['"'], spec_esc(sv) + seq!['"'], v@.skip(i as int));
            assert(v@.skip(i as int).skip(1) =~= v@.skip(j as int));
            assert(sv.skip(0) =~= sv);
            assert(sv.take(0) =~= Seq::<char>::empty());
            assert(acc@ =~= sv.take(0));
        }
    }
    loop
        invariant
            i < j <= v.len(),
            forall|sv: Seq<char>|
                (#[trigger] spec_quote(sv)).is_prefix_of(v@.skip(i as int)) ==> {
                    &&& acc@.len() <= sv.len()
                    &&& acc@ == sv.take(acc@.len() as int)
                    &&& (spec_esc(sv.skip(acc@.len() as int)) + seq!['"']).is_prefix_of(
                        v@.skip(j as int),
                    )
                    &&& j == i + 1 + spec_esc(sv.take(acc@.len() as int)).len()
                },
        decreases v.len() - j,
    {
        if j == v.len() {
            proof {
                assert forall|sv: Seq<char>|
                    (#[trigger] spec_quote(sv)).is_prefix_of(v@.skip(i as int)) implies false by {
                    let k = acc@.len() as int;
                    assert((spec_esc(sv.skip(k)) + seq!['"']).len() >= 1);
                }
            }
            return None;
        }
        let c = v[j];
        if c == '"' {
            let s = chars_to_string(&acc);
            proof {
                assert forall|sv: Seq<char>|
                    (#[trigger] spec_quote(sv)).is_prefix_of(v@.skip(i as int)) implies (s@ == sv
                    && j + 1 == i + spec_quote(sv).len()) by {
                    let k = acc@.len() as int;
                    let tail = spec_esc(sv.skip(k)) + seq!['"'];
                    lemma_pref_index(tail, v@.skip(j as int), 0);
                    assert(v@.skip(j as int)[0] == c);
                    if k < sv.len() {
                        lemma_esc_char_first(sv.skip(k)[0]);
                        assert(sv.skip(k).skip(1) =~= sv.skip(k + 1));
                        assert(spec_esc(sv.skip(k)) =~= spec_esc_char(sv.skip(k)[0]) + spec_esc(
                            sv.skip(k + 1),
                        ));
                        assert(tail[0] == spec_esc_char(sv.skip(k)[0])[0]);
                    }
                    assert(k == sv.len());
                    assert(sv.take(sv.len() as int) =~= sv);
                    assert(spec_esc(sv.skip(k)) =~= Seq::<char>::empty());
                }
            }
            return Some((s, j + 1));
        } else if c == '\\' {
            // an escape sequence
            let rem = v.len() - j;
            if rem < 2 {
                proof {
                    assert forall|sv: Seq<char>|
                        (#[trigger] spec_quote(sv)).is_prefix_of(v@.skip(i as int)) implies false by {
                        let k = acc@.len() as int;
                        let tail = spec_esc(sv.skip(k)) + seq!['"'];
                        lemma_pref_index(tail, v@.skip(j as int), 0);
                        if k < sv.len() {
                            let sc = sv.skip(k)[0];
                            lemma_esc_char_first(sc);
                            assert(sv.skip(k).skip(1) =~= sv.skip(k + 1));
                            assert(spec_esc(sv.skip(k)) =~= spec_esc_char(sc) + spec_esc(
                                sv.skip(k + 1),
                            ));
                            assert(tail[0] == spec_esc_char(sc)[0]);
                            // the escape form was used, so at least two
                            // characters remain, against rem < 2
                            assert(spec_esc_char(sc).len() >= 2);
                            assert(tail.len() >= 3);
                            assert(tail.len() <= v@.skip(j as int).len());
                        } else {
                            assert(tail[0] == '"');
                        }
                    }
                }
                return None;
            }
            let e = v[j + 1];
            let dec: Option<(char, usize)> = if e == '"' {
                Some(('"', 2))
            } else if e == '\\' {
                Some(('\\', 2))
            } else if e == 'n' {
                Some(('\n', 2))
            } else if e == 'r' {
                Some(('\r', 2))
            } else if e == 't' {
                Some(('\t', 2))
            } else if e == 'u' {
                if v.len() - j < 6 {
                    None
                } else {
                    let d2 = v[j + 2];
                    let d3 = v[j + 3];
                    if d2 != '0' || d3 != '0' {
                        None
                    } else {
                        match (hex_val(v[j + 4]), hex_val(v[j + 5])) {
                            (Some(h), Some(l)) => Some((char_from_code(h * 16 + l), 6)),
                            _ => None,
                        }
                    }
                }
            } else {
                None
            };
            match dec {
                Some((c2, used)) => {
                    acc.push(c2);
                    let ghost jj = j as int;
                    j = j + used;
                    proof {
                        assert forall|sv: Seq<char>|
                            (#[trigger] spec_quote(sv)).is_prefix_of(v@.skip(i as int)) implies {
                            &&& acc@.len() <= sv.len()
                            &&& acc@ == sv.take(acc@.len() as int)
                            &&& (spec_esc(sv.skip(acc@.len() as int)) + seq!['"']).is_prefix_of(
                                v@.skip(j as int),
                            )
                            &&& j == i + 1 + spec_esc(sv.take(acc@.len() as int)).len()
                        } by {
                            let k = (acc@.len() - 1) as int;
                            assert(acc@.drop_last() == sv.take(k));
                            let tail = spec_esc(sv.skip(k)) + seq!['"'];
                            lemma_pref_index(tail, v@.skip(jj), 0);
                            if k >= sv.len() {
                                assert(tail[0] == '"');
                            }
                            let sc = sv.skip(k)[0];
                            lemma_esc_char_first(sc);
                            let e0 = spec_esc_char(sc);
                            assert(sv.skip(k).skip(1) =~= sv.skip(k + 1));
                            assert(spec_esc(sv.skip(k)) =~= e0 + spec_esc(sv.skip(k + 1)));
                            assert(tail[0] == e0[0]);
                            assert(e0[0] == '\\');
                            assert(e0.len() >= 2);
                            assert(tail.len() <= v@.skip(jj).len());
                            lemma_pref_index(tail, v@.skip(jj), 1);
                            assert(tail[1] == e0[1]);
                            assert(v@.skip(jj)[1] == e);
                            assert(sc == c2 && e0.len() == used) by {
                                if sc == '"' {
                                    assert(e == '"');
                                } else if sc == '\\' {
                                    assert(e == '\\');
                                } else if sc == '\n' {
                                    assert(e == 'n');
                                } else if sc == '\r' {
                                    assert(e == 'r');
                                } else if sc == '\t' {
                                    assert(e == 't');
                                } else {
                                    assert((sc as u32) < 0x20);
                                    assert(e0.len() == 6);
                                    assert(e == 'u');
                                    lemma_pref_index(tail, v@.skip(jj), 2);
                                    lemma_pref_index(tail, v@.skip(jj), 3);
                                    lemma_pref_index(tail, v@.skip(jj), 4);
                                    lemma_pref_index(tail, v@.skip(jj), 5);
                                    assert(tail[2] == e0[2] && tail[3] == e0[3] && tail[4]
                                        == e0[4] && tail[5] == e0[5]);
                                    assert(v@[jj + 2] == '0');
                                    assert(v@[jj + 3] == '0');
                                    let code = (sc as u32) as int;
                                    assert(v@[jj + 4] == hex_digit(code / 16));
                                    assert(v@[jj + 5] == hex_digit(code % 16));
                                    assert((c2 as u32) as int == code);
                                    vstd::utf8::char_u32_cast(sc, sc as u32);
                                    vstd::utf8::char_u32_cast(c2, c2 as u32);
                                }
                            }
                            assert(sv.take(k + 1) =~= sv.take(k).push(sc));
                            lemma_esc_push(sv.take(k), sc);
                            assert(acc@ =~= sv.take(k + 1));
                            lemma_pref_concat(
                                e0,
                                spec_esc(sv.skip(k + 1)) + seq!['"'],
                                v@.skip(jj),
                            );
                            assert((e0 + (spec_esc(sv.skip(k + 1)) + seq!['"'])) =~= tail);
                            assert(v@.skip(jj).skip(e0.len() as int) =~= v@.skip(j as int));
                        }
                    }
                },
                None => {
                    proof {
                        assert forall|sv: Seq<char>|
                            (#[trigger] spec_quote(sv)).is_prefix_of(v@.skip(i as int)) implies
                        false by {
                            let k = acc@.len() as int;
                            let tail = spec_esc(sv.skip(k)) + seq!['"'];
                            lemma_pref_index(tail, v@.skip(j as int), 0);
                            if k >= sv.len() {
                                assert(tail[0] == '"');
                            }
                            let sc = sv.skip(k)[0];
                            lemma_esc_char_first(sc);
                            let e0 = spec_esc_char(sc);
                            assert(sv.skip(k).skip(1) =~= sv.skip(k + 1));
                            assert(spec_esc(sv.skip(k)) =~= e0 + spec_esc(sv.skip(k + 1)));
                            assert(tail[0] == e0[0]);
                            assert(e0[0] == '\\');
                            assert(e0.len() >= 2);
                            assert(tail.len() <= v@.skip(j as int).len());
                            lemma_pref_index(tail, v@.skip(j as int), 1);
                            assert(tail[1] == e0[1]);
                            assert(v@.skip(j as int)[1] == e);
                            if sc == '"' || sc == '\\' || sc == '\n' || sc == '\r' || sc == '\t' {
                            } else {
                                assert((sc as u32) < 0x20);
                                assert(e0.len() == 6);
                                lemma_pref_index(tail, v@.skip(j as int), 2);
                                lemma_pref_index(tail, v@.skip(j as int), 3);
                                lemma_pref_index(tail, v@.skip(j as int), 4);
                                lemma_pref_index(tail, v@.skip(j as int), 5);
                                assert(v@[j + 2] == '0');
                                assert(v@[j + 3] == '0');
                                assert(v@[j + 4] == hex_digit((sc as u32) as int / 16));
                                assert(v@[j + 5] == hex_digit((sc as u32) as int % 16));
                            }
                        }
                    }
                    return None;
                },
            }
        } else {
            // a character standing for itself
            acc.push(c);
            let ghost jj = j as int;
            j = j + 1;
            proof {
                assert forall|sv: Seq<char>|
                    (#[trigger] spec_quote(sv)).is_prefix_of(v@.skip(i as int)) implies {
                    &&& acc@.len() <= sv.len()
                    &&& acc@ == sv.take(acc@.len() as int)
                    &&& (spec_esc(sv.skip(acc@.len() as int)) + seq!['"']).is_prefix_of(
                        v@.skip(j as int),
                    )
                    &&& j == i + 1 + spec_esc(sv.take(acc@.len() as int)).len()
                } by {
                    let k = (acc@.len() - 1) as int;
                    assert(acc@.drop_last() == sv.take(k));
                    let tail = spec_esc(sv.skip(k)) + seq!['"'];
                    lemma_pref_index(tail, v@.skip(jj), 0);
                    if k >= sv.len() {
                        assert(tail[0] == '"');
                    }
                    let sc = sv.skip(k)[0];
                    lemma_esc_char_first(sc);
                    let e0 = spec_esc_char(sc);
                    assert(sv.skip(k).skip(1) =~= sv.skip(k + 1));
                    assert(spec_esc(sv.skip(k)) =~= e0 + spec_esc(sv.skip(k + 1)));
                    assert(tail[0] == e0[0]);
                    // the character read is neither a quote nor a
                    // backslash, so sc stands for itself
                    assert(e0 == seq![sc]);
                    assert(sc == c);
                    assert(sv.take(k + 1) =~= sv.take(k).push(sc));
                    lemma_esc_push(sv.take(k), sc);
                    assert(acc@ =~= sv.take(k + 1));
                    lemma_pref_concat(e0, spec_esc(sv.skip(k + 1)) + seq!['"'], v@.skip(jj));
                    assert((e0 + (spec_esc(sv.skip(k + 1)) + seq!['"'])) =~= tail);
                    assert(v@.skip(jj).skip(1) =~= v@.skip(j as int));
                }
            }
        }
    }
}

/// A prefix agrees with the whole sequence at every index it covers.
proof fn lemma_pref_index(p: Seq<char>, s: Seq<char>, m: int)
    requires
        p.is_prefix_of(s),
        0 <= m < p.len(),
    ensures
        p[m] == s[m],
{
    assert(s.subrange(0, p.len() as int)[m] == s[m]);
}


// ------------------------------------------------------------------
// The manifest grammar, production by production.  Each `spec_write_*`
// function gives the canonical encoding of one view; each `wf_*`
// predicate says when a value can be carried by the format at all.
// ------------------------------------------------------------------

/// The encoding of a repo owner: a tagged one-field object.
pub open spec fn spec_write_user(u: GithubUserView) -> Seq<char> {
    match u {
        GithubUserView::User(n) => "{\"User\":"@ + spec_quote(n) + "}"@,
        GithubUserView::Organization(n) => "{\"Organization\":"@ + spec_quote(n) + "}"@,
    }
}

/// The encoding of an initialized repo.
pub open spec fn spec_write_repo(r: InitializedRepoView) -> Seq<char> {
    match r {
        InitializedRepoView::Github(g) => "{\"Github\":{\"name\":"@ + spec_quote(g.name)
            + ",\"organization\":"@ + spec_write_user(g.organization) + "}}"@,
    }
}

/// The encoding of an initialized ecosystem.
pub open spec fn spec_write_eco(e: InitializedEcosystemView) -> Seq<char> {
    match e {
        InitializedEcosystemView::Go(g) => "{\"Go\":{\"name\":"@ + spec_quote(g.name)
            + ",\"host\":"@ + spec_quote(g.host) + "}}"@,
        InitializedEcosystemView::Maven(m) => "{\"Maven\":{\"group_id\":"@ + spec_quote(m.group_id)
            + ",\"artifact_id\":"@ + spec_quote(m.artifact_id) + "}}"@,
    }
}

/// The encoding of a working copy.
pub open spec fn spec_write_source(s: InitializedSourceView) -> Seq<char> {
    "{\"path\":"@ + spec_quote(s.path) + "}"@
}

/// The encoding of one source file record: its `"name:path:hash"` string.
pub open spec fn spec_write_file(f: SourceFileView) -> Seq<char> {
    spec_quote(spec_source_file_string(f))
}

/// The later elements of a source file array, each preceded by a comma.
pub open spec fn spec_write_files_more(fs: Seq<SourceFileView>) -> Seq<char>
    decreases fs.len(),
{
    if fs.len() == 0 {
        Seq::empty()
    } else {
        ","@ + spec_write_file(fs[0]) + spec_write_files_more(fs.skip(1))
    }
}

/// The encoding of a source file array.
pub open spec fn spec_write_files_items(fs: Seq<SourceFileView>) -> Seq<char> {
    if fs.len() == 0 {
        Seq::empty()
    } else {
        spec_write_file(fs[0]) + spec_write_files_more(fs.skip(1))
    }
}

/// The encoding of a source file array.
pub open spec fn spec_write_files(fs: Seq<SourceFileView>) -> Seq<char> {
    "["@ + spec_write_files_items(fs) + "]"@
}

/// The encoding of one API call record.
pub open spec fn spec_write_api(a: APIContentView) -> Seq<char> {
    "{\"name\":"@ + spec_quote(a.name) + ",\"url\":"@ + spec_quote(a.url) + ",\"response\":"@
        + spec_quote(a.response) + "}"@
}

/// The later elements of an API call array, each preceded by a comma.
pub open spec fn spec_write_apis_more(cs: Seq<APIContentView>) -> Seq<char>
    decreases cs.len(),
{
    if cs.len() == 0 {
        Seq::empty()
    } else {
        ","@ + spec_write_api(cs[0]) + spec_write_apis_more(cs.skip(1))
    }
}

/// The encoding of an API call array.
pub open spec fn spec_write_apis_items(cs: Seq<APIContentView>) -> Seq<char> {
    if cs.len() == 0 {
        Seq::empty()
    } else {
        spec_write_api(cs[0]) + spec_write_apis_more(cs.skip(1))
    }
}

/// The encoding of an API call array.
pub open spec fn spec_write_apis(cs: Seq<APIContentView>) -> Seq<char> {
    "["@ + spec_write_apis_items(cs) + "]"@
}

/// The encoding of a source bundle facet.  The manifest persists only the
/// tracked records, never the transient fetched contents.
pub open spec fn spec_write_sb(sb: SourceBundleFacetView) -> Seq<char> {
    "{\"source_files\":"@ + spec_write_files(sb.source_files->Some_0) + ",\"facet_type\":"@
        + spec_quote(spec_facet_type_name(sb.facet_type)) + "}"@
}

/// The encoding of an API bundle facet.
pub open spec fn spec_write_ab(ab: APIBundleFacetView) -> Seq<char> {
    "{\"apis\":"@ + spec_write_apis(ab.apis) + ",\"facet_type\":"@ + spec_quote(
        spec_facet_type_name(ab.facet_type),
    ) + "}"@
}

/// The encoding of an initialized facet: a tagged one-field object.
pub open spec fn spec_write_facet(f: InitializedFacetView) -> Seq<char> {
    match f {
        InitializedFacetView::SourceBundle(sb) => "{\"SourceBundle\":"@ + spec_write_sb(sb)
            + "}"@,
        InitializedFacetView::APIBundle(ab) => "{\"APIBundle\":"@ + spec_write_ab(ab) + "}"@,
    }
}

/// The encoding of one facet map entry.
pub open spec fn spec_write_entry(e: (FacetMapKeyView, InitializedFacetView)) -> Seq<char> {
    spec_quote(spec_fmk_string(e.0)) + ":"@ + spec_write_facet(e.1)
}

/// The later entries of the facet map, each preceded by a comma.
pub open spec fn spec_write_entries_more(es: Seq<(FacetMapKeyView, InitializedFacetView)>) -> Seq<
    char,
>
    decreases es.len(),
{
    if es.len() == 0 {
        Seq::empty()
    } else {
        ","@ + spec_write_entry(es[0]) + spec_write_entries_more(es.skip(1))
    }
}

/// The encoding of the facet map.
pub open spec fn spec_write_entries_items(
    es: Seq<(FacetMapKeyView, InitializedFacetView)>,
) -> Seq<char> {
    if es.len() == 0 {
        Seq::empty()
    } else {
        spec_write_entry(es[0]) + spec_write_entries_more(es.skip(1))
    }
}

/// The encoding of the facet map.
pub open spec fn spec_write_entries(es: Seq<(FacetMapKeyView, InitializedFacetView)>) -> Seq<
    char,
> {
    "{"@ + spec_write_entries_items(es) + "}"@
}

/// The encoding of a whole project manifest.
pub open spec fn spec_write_project(p: InitializedProjectView) -> Seq<char> {
    "{\"repo\":"@ + spec_write_repo(p.repo) + ",\"ecosystem\":"@ + spec_write_eco(p.ecosystem)
        + ",\"source\":"@ + spec_write_source(p.source) + ",\"facets\":"@ + spec_write_entries(
        p.facets,
    ) + "}"@
}

/// Every source file record in the sequence is well formed.
pub open spec fn wf_files(fs: Seq<SourceFileView>) -> bool {
    forall|k: int| 0 <= k < fs.len() ==> wf_source_file(#[trigger] fs[k])
}

/// A facet the manifest can carry: a source bundle holding its persisted
/// records (contents are transient and never serialized), or an API
/// bundle.
pub open spec fn wf_facet(f: InitializedFacetView) -> bool {
    match f {
        InitializedFacetView::SourceBundle(sb) => sb.source_files matches Some(fs) && wf_files(fs)
            && sb.source_files_content is None,
        InitializedFacetView::APIBundle(ab) => true,
    }
}

/// Every facet map entry has a well-formed key and a persistable facet.
pub open spec fn wf_entries(es: Seq<(FacetMapKeyView, InitializedFacetView)>) -> bool {
    forall|k: int| 0 <= k < es.len() ==> wf_fmk(#[trigger] es[k].0) && wf_facet(es[k].1)
}

/// A project the manifest can carry.
pub open spec fn wf_project(p: InitializedProjectView) -> bool {
    wf_entries(p.facets)
}

// ------------------------------------------------------------------
// Writers.
// ------------------------------------------------------------------

/// Appends the encoding of a repo owner.
fn write_user(out: &mut String, u: &GithubUser)
    ensures
        final(out)@ == old(out)@ + spec_write_user(u@),
{
    match u {
        GithubUser::User(n) => {
            out.append("{\"User\":");
            write_quoted(out, n.as_str());
            out.append("}");
        },
        GithubUser::Organization(n) => {
            out.append("{\"Organization\":");
            write_quoted(out, n.as_str());
            out.append("}");
        },
    }
    proof {
        assert(final(out)@ =~= old(out)@ + spec_write_user(u@));
    }
}

/// Appends the encoding of an initialized repo.
fn write_repo(out: &mut String, r: &InitializedRepo)
    ensures
        final(out)@ == old(out)@ + spec_write_repo(r@),
{
    match r {
        InitializedRepo::Github(g) => {
            out.append("{\"Github\":{\"name\":");
            write_quoted(out, g.name.as_str());
            out.append(",\"organization\":");
            write_user(out, &g.organization);
            out.append("}}");
        },
    }
    proof {
        assert(final(out)@ =~= old(out)@ + spec_write_repo(r@));
    }
}

/// Appends the encoding of an initialized ecosystem.
fn write_eco(out: &mut String, e: &InitializedEcosystem)
    ensures
        final(out)@ == old(out)@ + spec_write_eco(e@),
{
    match e {
        InitializedEcosystem::Go(g) => {
            out.append("{\"Go\":{\"name\":");
            write_quoted(out, g.name.as_str());
            out.append(",\"host\":");
            write_quoted(out, g.host.as_str());
            out.append("}}");
        },
        InitializedEcosystem::Maven(m) => {
            out.append("{\"Maven\":{\"group_id\":");
            write_quoted(out, m.group_id.as_str());
            out.append(",\"artifact_id\":");
            write_quoted(out, m.artifact_id.as_str());
            out.append("}}");
        },
    }
    proof {
        assert(final(out)@ =~= old(out)@ + spec_write_eco(e@));
    }
}

/// Appends the encoding of a working copy.
fn write_source(out: &mut String, s: &InitializedSource)
    ensures
        final(out)@ == old(out)@ + spec_write_source(s@),
{
    out.append("{\"path\":");
    write_quoted(out, s.path.as_str());
    out.append("}");
    proof {
        assert(final(out)@ =~= old(out)@ + spec_write_source(s@));
    }
}

/// Adding a file at the end extends the comma-separated run by one item.
proof fn lemma_files_more_push(fs: Seq<SourceFileView>, x: SourceFileView)
    ensures
        spec_write_files_more(fs.push(x)) == spec_write_files_more(fs) + ","@ + spec_write_file(
            x,
        ),
    decreases fs.len(),
{
    if fs.len() == 0 {
        assert(fs.push(x)[0] == x);
        assert(fs.push(x).skip(1) =~= Seq::<SourceFileView>::empty());
        assert(spec_write_files_more(fs.push(x).skip(1)) =~= Seq::<char>::empty());
        assert(spec_write_files_more(fs.push(x)) =~= spec_write_files_more(fs) + ","@
            + spec_write_file(x));
    } else {
        assert(fs.push(x).skip(1) =~= fs.skip(1).push(x));
        lemma_files_more_push(fs.skip(1), x);
        assert(spec_write_files_more(fs.push(x)) =~= spec_write_files_more(fs) + ","@
            + spec_write_file(x));
    }
}

/// Appends the encoding of a source file array.
fn write_files(out: &mut String, fs: &Vec<SourceFile>)
    ensures
        final(out)@ == old(out)@ + spec_write_files(views_of_files(fs@)),
{
    if fs.len() == 0 {
        out.append("[");
        out.append("]");
        proof {
            assert(views_of_files(fs@).len() == 0);
            assert(final(out)@ =~= old(out)@ + spec_write_files(views_of_files(fs@)));
        }
        return ;
    }
    out.append("[");
    let enc = fs[0].encode();
    write_quoted(out, enc.as_str());
    let ghost fsv = views_of_files(fs@);
    let mut m: usize = 1;
    proof {
        assert(fsv.take(1).skip(1) =~= Seq::<SourceFileView>::empty());
        assert(spec_write_files_more(fsv.take(1).skip(1)) =~= Seq::<char>::empty());
        assert(fsv.take(1)[0] == fsv[0]);
        assert(out@ =~= old(out)@ + "["@ + spec_write_file(fsv[0]) + spec_write_files_more(
            fsv.take(1).skip(1),
        ));
    }
    while m < fs.len()
        invariant
            1 <= m <= fs.len(),
            fsv == views_of_files(fs@),
            fsv.len() == fs.len(),
            out@ == old(out)@ + "["@ + spec_write_file(fsv[0]) + spec_write_files_more(
                fsv.take(m as int).skip(1),
            ),
        decreases fs.len() - m,
    {
        out.append(",");
        let enc2 = fs[m].encode();
        write_quoted(out, enc2.as_str());
        proof {
            assert(fsv.take(m + 1).skip(1) =~= fsv.take(m as int).skip(1).push(fsv[m as int]));
            lemma_files_more_push(fsv.take(m as int).skip(1), fsv[m as int]);
            assert(out@ =~= old(out)@ + "["@ + spec_write_file(fsv[0]) + spec_write_files_more(
                fsv.take(m + 1).skip(1),
            ));
        }
        m = m + 1;
    }
    out.append("]");
    proof {
        assert(fsv.take(fsv.len() as int) =~= fsv);
        assert(final(out)@ =~= old(out)@ + spec_write_files(fsv));
    }
}

/// Appends the encoding of one API call record.
fn write_api(out: &mut String, a: &APIContent)
    ensures
        final(out)@ == old(out)@ + spec_write_api(a@),
{
    out.append("{\"name\":");
    write_quoted(out, a.name.as_str());
    out.append(",\"url\":");
    write_quoted(out, a.url.as_str());
    out.append(",\"response\":");
    write_quoted(out, a.response.as_str());
    out.append("}");
    proof {
        assert(final(out)@ =~= old(out)@ + spec_write_api(a@));
    }
}

/// Adding an API call at the end extends the comma-separated run by one.
proof fn lemma_apis_more_push(cs: Seq<APIContentView>, x: APIContentView)
    ensures
        spec_write_apis_more(cs.push(x)) == spec_write_apis_more(cs) + ","@ + spec_write_api(x),
    decreases cs.len(),
{
    if cs.len() == 0 {
        assert(cs.push(x)[0] == x);
        assert(cs.push(x).skip(1) =~= Seq::<APIContentView>::empty());
        assert(spec_write_apis_more(cs.push(x).skip(1)) =~= Seq::<char>::empty());
        assert(spec_write_apis_more(cs.push(x)) =~= spec_write_apis_more(cs) + ","@
            + spec_write_api(x));
    } else {
        assert(cs.push(x).skip(1) =~= cs.skip(1).push(x));
        lemma_apis_more_push(cs.skip(1), x);
        assert(spec_write_apis_more(cs.push(x)) =~= spec_write_apis_more(cs) + ","@
            + spec_write_api(x));
    }
}

/// Appends the encoding of an API call array.
fn write_apis(out: &mut String, cs: &Vec<APIContent>)
    ensures
        final(out)@ == old(out)@ + spec_write_apis(views_of_apis(cs@)),
{
    if cs.len() == 0 {
        out.append("[");
        out.append("]");
        proof {
            assert(views_of_apis(cs@).len() == 0);
            assert(final(out)@ =~= old(out)@ + spec_write_apis(views_of_apis(cs@)));
        }
        return ;
    }
    out.append("[");
    write_api(out, &cs[0]);
    let ghost csv = views_of_apis(cs@);
    let mut m: usize = 1;
    proof {
        assert(csv.take(1).skip(1) =~= Seq::<APIContentView>::empty());
        assert(spec_write_apis_more(csv.take(1).skip(1)) =~= Seq::<char>::empty());
        assert(csv.take(1)[0] == csv[0]);
        assert(out@ =~= old(out)@ + "["@ + spec_write_api(csv[0]) + spec_write_apis_more(
            csv.take(1).skip(1),
        ));
    }
    while m < cs.len()
        invariant
            1 <= m <= cs.len(),
            csv == views_of_apis(cs@),
            csv.len() == cs.len(),
            out@ == old(out)@ + "["@ + spec_write_api(csv[0]) + spec_write_apis_more(
                csv.take(m as int).skip(1),
            ),
        decreases cs.len() - m,
    {
        out.append(",");
        write_api(out, &cs[m]);
        proof {
            assert(csv.take(m + 1).skip(1) =~= csv.take(m as int).skip(1).push(csv[m as int]));
            lemma_apis_more_push(csv.take(m as int).skip(1), csv[m as int]);
            assert(out@ =~= old(out)@ + "["@ + spec_write_api(csv[0]) + spec_write_apis_more(
                csv.take(m + 1).skip(1),
            ));
        }
        m = m + 1;
    }
    out.append("]");
    proof {
        assert(csv.take(csv.len() as int) =~= csv);
        assert(final(out)@ =~= old(out)@ + spec_write_apis(csv));
    }
}

/// Appends the encoding of an initialized facet.
#[verifier::rlimit(50)]
fn write_facet(out: &mut String, f: &InitializedFacet)
    requires
        wf_facet(f@),
    ensures
        final(out)@ == old(out)@ + spec_write_facet(f@),
{
    match f {
        InitializedFacet::SourceBundle(sb) => {
            out.append("{\"SourceBundle\":");
            out.append("{\"source_files\":");
            match &sb.source_files {
                Some(fs) => {
                    write_files(out, fs);
                },
                None => {
                    // excluded by well-formedness
                    proof {
                        assert(false);
                    }
                },
            }
            out.append(",\"facet_type\":");
            let name = sb.facet_type.name();
            write_quoted(out, name.as_str());
            out.append("}");
            out.append("}");
        },
        InitializedFacet::APIBundle(ab) => {
            out.append("{\"APIBundle\":");
            out.append("{\"apis\":");
            write_apis(out, &ab.apis);
            out.append(",\"facet_type\":");
            let name = ab.facet_type.name();
            write_quoted(out, name.as_str());
            out.append("}");
            out.append("}");
        },
    }
    proof {
        assert(final(out)@ =~= old(out)@ + spec_write_facet(f@));
    }
}

/// Adding a facet entry at the end extends the comma-separated run by one.
proof fn lemma_entries_more_push(
    es: Seq<(FacetMapKeyView, InitializedFacetView)>,
    x: (FacetMapKeyView, InitializedFacetView),
)
    ensures
        spec_write_entries_more(es.push(x)) == spec_write_entries_more(es) + ","@
            + spec_write_entry(x),
    decreases es.len(),
{
    if es.len() == 0 {
        assert(es.push(x)[0] == x);
        assert(es.push(x).skip(1) =~= Seq::<(FacetMapKeyView, InitializedFacetView)>::empty());
        assert(spec_write_entries_more(es.push(x).skip(1)) =~= Seq::<char>::empty());
        assert(spec_write_entries_more(es.push(x)) =~= spec_write_entries_more(es) + ","@
            + spec_write_entry(x));
    } else {
        assert(es.push(x).skip(1) =~= es.skip(1).push(x));
        lemma_entries_more_push(es.skip(1), x);
        assert(spec_write_entries_more(es.push(x)) =~= spec_write_entries_more(es) + ","@
            + spec_write_entry(x));
    }
}

/// Appends one facet map entry.
fn write_entry(out: &mut String, k: &FacetMapKey, f: &InitializedFacet)
    requires
        wf_facet(f@),
    ensures
        final(out)@ == old(out)@ + spec_write_entry((k@, f@)),
{
    let ks = k.encode();
    write_quoted(out, ks.as_str());
    out.append(":");
    write_facet(out, f);
    proof {
        assert(final(out)@ =~= old(out)@ + spec_write_entry((k@, f@)));
    }
}

/// Appends the encoding of the facet map.
#[verifier::rlimit(50)]
fn write_entries(out: &mut String, es: &Vec<(FacetMapKey, InitializedFacet)>)
    requires
        forall|k: int| 0 <= k < es@.len() ==> wf_facet(#[trigger] es@[k].1@),
    ensures
        final(out)@ == old(out)@ + spec_write_entries(views_of_facets(es@)),
{
    if es.len() == 0 {
        out.append("{");
        out.append("}");
        proof {
            assert(views_of_facets(es@).len() == 0);
            assert(final(out)@ =~= old(out)@ + spec_write_entries(views_of_facets(es@)));
        }
        return ;
    }
    out.append("{");
    write_entry(out, &es[0].0, &es[0].1);
    let ghost esv = views_of_facets(es@);
    let mut m: usize = 1;
    proof {
        assert(esv.take(1).skip(1) =~= Seq::<(FacetMapKeyView, InitializedFacetView)>::empty());
        assert(spec_write_entries_more(esv.take(1).skip(1)) =~= Seq::<char>::empty());
        assert(esv.take(1)[0] == esv[0]);
        assert(esv[0] == (es@[0].0@, es@[0].1@));
        assert(out@ =~= old(out)@ + "{"@ + spec_write_entry(esv[0]) + spec_write_entries_more(
            esv.take(1).skip(1),
        ));
    }
    while m < es.len()
        invariant
            1 <= m <= es.len(),
            esv == views_of_facets(es@),
            esv.len() == es.len(),
            forall|k: int| 0 <= k < es@.len() ==> wf_facet(#[trigger] es@[k].1@),
            out@ == old(out)@ + "{"@ + spec_write_entry(esv[0]) + spec_write_entries_more(
                esv.take(m as int).skip(1),
            ),
        decreases es.len() - m,
    {
        out.append(",");
        write_entry(out, &es[m].0, &es[m].1);
        proof {
            assert(esv.take(m + 1).skip(1) =~= esv.take(m as int).skip(1).push(esv[m as int]));
            lemma_entries_more_push(esv.take(m as int).skip(1), esv[m as int]);
            assert(esv[m as int] == (es@[m as int].0@, es@[m as int].1@));
            assert(out@ =~= old(out)@ + "{"@ + spec_write_entry(esv[0])
                + spec_write_entries_more(esv.take(m + 1).skip(1)));
        }
        m = m + 1;
    }
    out.append("}");
    proof {
        assert(esv.take(esv.len() as int) =~= esv);
        assert(final(out)@ =~= old(out)@ + spec_write_entries(esv));
    }
}

/// Serializes a project as its `.skootrs` manifest text.
pub fn serialize_project(p: &InitializedProject) -> (r: String)
    requires
        wf_project(p@),
    ensures
        r@ == spec_write_project(p@),
{
    let mut out = String::new();
    out.append("{\"repo\":");
    write_repo(&mut out, &p.repo);
    out.append(",\"ecosystem\":");
    write_eco(&mut out, &p.ecosystem);
    out.append(",\"source\":");
    write_source(&mut out, &p.source);
    out.append(",\"facets\":");
    proof {
        assert forall|k: int| 0 <= k < p.facets@.len() implies wf_facet(
            #[trigger] p.facets@[k].1@,
        ) by {
            assert(p@.facets[k] == (p.facets@[k].0@, p.facets@[k].1@));
            assert(wf_fmk(p@.facets[k].0) && wf_facet(p@.facets[k].1));
        }
    }
    write_entries(&mut out, &p.facets);
    out.append("}");
    proof {
        assert(out@ =~= spec_write_project(p@));
    }
    out
}

/// Checks for the literal `lit` at position `i`; on success returns the
/// position just past it.
pub fn expect_lit(v: &Vec<char>, i: usize, lit: &str) -> (r: Option<usize>)
    requires
        i <= v.len(),
    ensures
        r matches Some(n) ==> n == i + lit@.len() && n <= v.len() && lit@.is_prefix_of(
            v@.skip(i as int),
        ),
        lit@.is_prefix_of(v@.skip(i as int)) ==> r == Some((i + lit@.len()) as usize),
{
    let cs = str_to_chars(lit);
    if v.len() - i < cs.len() {
        return None;
    }
    let mut k: usize = 0;
    while k < cs.len()
        invariant
            k <= cs.len(),
            cs@ == lit@,
            i + cs.len() <= v.len(),
            forall|m: int| 0 <= m < k ==> v@.skip(i as int)[m] == lit@[m],
        decreases cs.len() - k,
    {
        if v[i + k] != cs[k] {
            proof {
                if lit@.is_prefix_of(v@.skip(i as int)) {
                    assert(v@.skip(i as int)[k as int] == lit@[k as int]);
                }
            }
            return None;
        }
        assert(v@.skip(i as int)[k as int] == v@[i + k]);
        k = k + 1;
    }
    proof {
        assert(lit@.is_prefix_of(v@.skip(i as int)));
    }
    Some(i + cs.len())
}

/// Splits a composite prefix: when `a + b` starts at `i`, `a` starts at
/// `i` and `b` starts right after it.
proof fn lemma_chop(a: Seq<char>, b: Seq<char>, s: Seq<char>, i: int)
    requires
        0 <= i <= s.len(),
        (a + b).is_prefix_of(s.skip(i)),
    ensures
        a.is_prefix_of(s.skip(i)),
        i + a.len() <= s.len(),
        b.is_prefix_of(s.skip(i + a.len())),
{
    lemma_pref_concat(a, b, s.skip(i));
    assert(s.skip(i).skip(a.len() as int) =~= s.skip(i + a.len()));
}

/// Parses a repo owner.
fn parse_user(v: &Vec<char>, i: usize) -> (r: Option<(GithubUser, usize)>)
    requires
        i <= v.len(),
    ensures
        r matches Some(p) ==> i <= p.1 <= v.len(),
        forall|uv: GithubUserView|
            (#[trigger] spec_write_user(uv)).is_prefix_of(v@.skip(i as int)) ==> (r matches Some(
                p,
            ) && p.0@ == uv && p.1 == i + spec_write_user(uv).len()),
{
    proof {
        reveal_strlit("{\"User\":");
        reveal_strlit("{\"Organization\":");
    }
    match expect_lit(v, i, "{\"User\":") {
        Some(n1) => {
            let q = match parse_quoted(v, n1) {
                Some(q) => q,
                None => {
                    proof {
                        assert forall|uv: GithubUserView|
                            (#[trigger] spec_write_user(uv)).is_prefix_of(
                                v@.skip(i as int),
                            ) implies false by {
                            lemma_user_head(v@, i as int, uv);
                            let nm = uv->User_0;
                            assert(spec_write_user(uv) =~= "{\"User\":"@ + (spec_quote(nm)
                                + "}"@));
                            lemma_chop("{\"User\":"@, spec_quote(nm) + "}"@, v@, i as int);
                            lemma_chop(spec_quote(nm), "}"@, v@, n1 as int);
                        }
                    }
                    return None;
                },
            };
            match expect_lit(v, q.1, "}") {
                Some(n3) => {
                    let result = GithubUser::User(q.0);
                    proof {
                        assert forall|uv: GithubUserView|
                            (#[trigger] spec_write_user(uv)).is_prefix_of(
                                v@.skip(i as int),
                            ) implies (result@ == uv && n3 == i + spec_write_user(uv).len()) by {
                            lemma_user_head(v@, i as int, uv);
                            let nm = uv->User_0;
                            assert(spec_write_user(uv) =~= "{\"User\":"@ + (spec_quote(nm)
                                + "}"@));
                            lemma_chop("{\"User\":"@, spec_quote(nm) + "}"@, v@, i as int);
                            lemma_chop(spec_quote(nm), "}"@, v@, n1 as int);
                        }
                    }
                    Some((result, n3))
                },
                None => {
                    proof {
                        assert forall|uv: GithubUserView|
                            (#[trigger] spec_write_user(uv)).is_prefix_of(
                                v@.skip(i as int),
                            ) implies false by {
                            lemma_user_head(v@, i as int, uv);
                            let nm = uv->User_0;
                            assert(spec_write_user(uv) =~= "{\"User\":"@ + (spec_quote(nm)
                                + "}"@));
                            lemma_chop("{\"User\":"@, spec_quote(nm) + "}"@, v@, i as int);
                            lemma_chop(spec_quote(nm), "}"@, v@, n1 as int);
                        }
                    }
                    None
                },
            }
        },
        None => {
            match expect_lit(v, i, "{\"Organization\":") {
                Some(n1) => {
                    let q = match parse_quoted(v, n1) {
                        Some(q) => q,
                        None => {
                            proof {
                                assert forall|uv: GithubUserView|
                                    (#[trigger] spec_write_user(uv)).is_prefix_of(
                                        v@.skip(i as int),
                                    ) implies false by {
                                    lemma_org_head(v@, i as int, uv);
                                    let nm = uv->Organization_0;
                                    assert(spec_write_user(uv) =~= "{\"Organization\":"@ + (
                                    spec_quote(nm) + "}"@));
                                    lemma_chop(
                                        "{\"Organization\":"@,
                                        spec_quote(nm) + "}"@,
                                        v@,
                                        i as int,
                                    );
                                    lemma_chop(spec_quote(nm), "}"@, v@, n1 as int);
                                }
                            }
                            return None;
                        },
                    };
                    match expect_lit(v, q.1, "}") {
                        Some(n3) => {
                            let result = GithubUser::Organization(q.0);
                            proof {
                                assert forall|uv: GithubUserView|
                                    (#[trigger] spec_write_user(uv)).is_prefix_of(
                                        v@.skip(i as int),
                                    ) implies (result@ == uv && n3 == i + spec_write_user(
                                    uv,
                                ).len()) by {
                                    lemma_org_head(v@, i as int, uv);
                                    let nm = uv->Organization_0;
                                    assert(spec_write_user(uv) =~= "{\"Organization\":"@ + (
                                    spec_quote(nm) + "}"@));
                                    lemma_chop(
                                        "{\"Organization\":"@,
                                        spec_quote(nm) + "}"@,
                                        v@,
                                        i as int,
                                    );
                                    lemma_chop(spec_quote(nm), "}"@, v@, n1 as int);
                                }
                            }
                            Some((result, n3))
                        },
                        None => {
                            proof {
                                assert forall|uv: GithubUserView|
                                    (#[trigger] spec_write_user(uv)).is_prefix_of(
                                        v@.skip(i as int),
                                    ) implies false by {
                                    lemma_org_head(v@, i as int, uv);
                                    let nm = uv->Organization_0;
                                    assert(spec_write_user(uv) =~= "{\"Organization\":"@ + (
                                    spec_quote(nm) + "}"@));
                                    lemma_chop(
                                        "{\"Organization\":"@,
                                        spec_quote(nm) + "}"@,
                                        v@,
                                        i as int,
                                    );
                                    lemma_chop(spec_quote(nm), "}"@, v@, n1 as int);
                                }
                            }
                            None
                        },
                    }
                },
                None => {
                    proof {
                        assert forall|uv: GithubUserView|
                            (#[trigger] spec_write_user(uv)).is_prefix_of(
                                v@.skip(i as int),
                            ) implies false by {
                            match uv {
                                GithubUserView::User(nm) => {
                                    assert(spec_write_user(uv) =~= "{\"User\":"@ + (spec_quote(nm)
                                        + "}"@));
                                    lemma_chop(
                                        "{\"User\":"@,
                                        spec_quote(nm) + "}"@,
                                        v@,
                                        i as int,
                                    );
                                },
                                GithubUserView::Organization(nm) => {
                                    assert(spec_write_user(uv) =~= "{\"Organization\":"@ + (
                                    spec_quote(nm) + "}"@));
                                    lemma_chop(
                                        "{\"Organization\":"@,
                                        spec_quote(nm) + "}"@,
                                        v@,
                                        i as int,
                                    );
                                },
                            }
                        }
                    }
                    None
                },
            }
        },
    }
}

/// When the input starts with both the `User` tag and the encoding of
/// `uv`, `uv` is a `User`.
proof fn lemma_user_head(s: Seq<char>, i: int, uv: GithubUserView)
    requires
        0 <= i <= s.len(),
        spec_write_user(uv).is_prefix_of(s.skip(i)),
        "{\"User\":"@.is_prefix_of(s.skip(i)),
    ensures
        uv is User,
{
    reveal_strlit("{\"User\":");
    reveal_strlit("{\"Organization\":");
    match uv {
        GithubUserView::Organization(nm) => {
            assert(spec_write_user(uv) =~= "{\"Organization\":"@ + (spec_quote(nm) + "}"@));
            lemma_chop("{\"Organization\":"@, spec_quote(nm) + "}"@, s, i);
            lemma_pref_index("{\"User\":"@, s.skip(i), 2);
            lemma_pref_index("{\"Organization\":"@, s.skip(i), 2);
        },
        GithubUserView::User(nm) => {},
    }
}

/// When the input starts with both the `Organization` tag and the
/// encoding of `uv`, `uv` is an `Organization`.
proof fn lemma_org_head(s: Seq<char>, i: int, uv: GithubUserView)
    requires
        0 <= i <= s.len(),
        spec_write_user(uv).is_prefix_of(s.skip(i)),
        "{\"Organization\":"@.is_prefix_of(s.skip(i)),
    ensures
        uv is Organization,
{
    reveal_strlit("{\"User\":");
    reveal_strlit("{\"Organization\":");
    match uv {
        GithubUserView::User(nm) => {
            assert(spec_write_user(uv) =~= "{\"User\":"@ + (spec_quote(nm) + "}"@));
            lemma_chop("{\"User\":"@, spec_quote(nm) + "}"@, s, i);
            lemma_pref_index("{\"User\":"@, s.skip(i), 2);
            lemma_pref_index("{\"Organization\":"@, s.skip(i), 2);
        },
        GithubUserView::Organization(nm) => {},
    }
}

/// Parses an initialized repo.
fn parse_repo(v: &Vec<char>, i: usize) -> (r: Option<(InitializedRepo, usize)>)
    requires
        i <= v.len(),
    ensures
        r matches Some(p) ==> i <= p.1 <= v.len(),
        forall|rv: InitializedRepoView|
            (#[trigger] spec_write_repo(rv)).is_prefix_of(v@.skip(i as int)) ==> (r matches Some(
                p,
            ) && p.0@ == rv && p.1 == i + spec_write_repo(rv).len()),
{
    let n1 = match expect_lit(v, i, "{\"Github\":{\"name\":") {
        Some(n) => n,
        None => {
            proof {
                assert forall|rv: InitializedRepoView|
                    (#[trigger] spec_write_repo(rv)).is_prefix_of(v@.skip(i as int)) implies
                false by {
                    let gv = rv->Github_0;
                    assert(spec_write_repo(rv) =~= "{\"Github\":{\"name\":"@ + (spec_quote(
                        gv.name,
                    ) + (",\"organization\":"@ + (spec_write_user(gv.organization) + "}}"@))));
                    lemma_chop(
                        "{\"Github\":{\"name\":"@,
                        spec_quote(gv.name) + (",\"organization\":"@ + (spec_write_user(
                            gv.organization,
                        ) + "}}"@)),
                        v@,
                        i as int,
                    );
                }
            }
            return None;
        },
    };
    let ghost decomp = |rv: InitializedRepoView|
        {
            let gv = rv->Github_0;
            spec_quote(gv.name) + (",\"organization\":"@ + (spec_write_user(gv.organization)
                + "}}"@))
        };
    proof {
        assert forall|rv: InitializedRepoView|
            (#[trigger] spec_write_repo(rv)).is_prefix_of(v@.skip(i as int)) implies decomp(
            rv,
        ).is_prefix_of(v@.skip(n1 as int)) by {
            let gv = rv->Github_0;
            assert(spec_write_repo(rv) =~= "{\"Github\":{\"name\":"@ + decomp(rv));
            lemma_chop("{\"Github\":{\"name\":"@, decomp(rv), v@, i as int);
        }
    }
    let q = match parse_quoted(v, n1) {
        Some(q) => q,
        None => {
            proof {
                assert forall|rv: InitializedRepoView|
                    (#[trigger] spec_write_repo(rv)).is_prefix_of(v@.skip(i as int)) implies
                false by {
                    let gv = rv->Github_0;
                    lemma_chop(
                        spec_quote(gv.name),
                        ",\"organization\":"@ + (spec_write_user(gv.organization) + "}}"@),
                        v@,
                        n1 as int,
                    );
                }
            }
            return None;
        },
    };
    let n2 = match expect_lit(v, q.1, ",\"organization\":") {
        Some(n) => n,
        None => {
            proof {
                assert forall|rv: InitializedRepoView|
                    (#[trigger] spec_write_repo(rv)).is_prefix_of(v@.skip(i as int)) implies
                false by {
                    let gv = rv->Github_0;
                    lemma_chop(
                        spec_quote(gv.name),
                        ",\"organization\":"@ + (spec_write_user(gv.organization) + "}}"@),
                        v@,
                        n1 as int,
                    );
                    lemma_chop(
                        ",\"organization\":"@,
                        spec_write_user(gv.organization) + "}}"@,
                        v@,
                        q.1 as int,
                    );
                }
            }
            return None;
        },
    };
    let u = match parse_user(v, n2) {
        Some(u) => u,
        None => {
            proof {
                assert forall|rv: InitializedRepoView|
                    (#[trigger] spec_write_repo(rv)).is_prefix_of(v@.skip(i as int)) implies
                false by {
                    let gv = rv->Github_0;
                    lemma_chop(
                        spec_quote(gv.name),
                        ",\"organization\":"@ + (spec_write_user(gv.organization) + "}}"@),
                        v@,
                        n1 as int,
                    );
                    lemma_chop(
                        ",\"organization\":"@,
                        spec_write_user(gv.organization) + "}}"@,
                        v@,
                        q.1 as int,
                    );
                    lemma_chop(spec_write_user(gv.organization), "}}"@, v@, n2 as int);
                }
            }
            return None;
        },
    };
    match expect_lit(v, u.1, "}}") {
        Some(n3) => {
            let result = InitializedRepo::Github(
                InitializedGithubRepo { name: q.0, organization: u.0 },
            );
            proof {
                assert forall|rv: InitializedRepoView|
                    (#[trigger] spec_write_repo(rv)).is_prefix_of(v@.skip(i as int)) implies (
                result@ == rv && n3 == i + spec_write_repo(rv).len()) by {
                    let gv = rv->Github_0;
                    lemma_chop(
                        spec_quote(gv.name),
                        ",\"organization\":"@ + (spec_write_user(gv.organization) + "}}"@),
                        v@,
                        n1 as int,
                    );
                    lemma_chop(
                        ",\"organization\":"@,
                        spec_write_user(gv.organization) + "}}"@,
                        v@,
                        q.1 as int,
                    );
                    lemma_chop(spec_write_user(gv.organization), "}}"@, v@, n2 as int);
                }
            }
            Some((result, n3))
        },
        None => {
            proof {
                assert forall|rv: InitializedRepoView|
                    (#[trigger] spec_write_repo(rv)).is_prefix_of(v@.skip(i as int)) implies
                false by {
                    let gv = rv->Github_0;
                    lemma_chop(
                        spec_quote(gv.name),
                        ",\"organization\":"@ + (spec_write_user(gv.organization) + "}}"@),
                        v@,
                        n1 as int,
                    );
                    lemma_chop(
                        ",\"organization\":"@,
                        spec_write_user(gv.organization) + "}}"@,
                        v@,
                        q.1 as int,
                    );
                    lemma_chop(spec_write_user(gv.organization), "}}"@, v@, n2 as int);
                }
            }
            None
        },
    }
}

/// Unpacks the encoding of a Go ecosystem into its successive parts.
proof fn lemma_go_chain(s: Seq<char>, i: int, gv: crate::model::InitializedGoView)
    requires
        0 <= i <= s.len(),
        spec_write_eco(InitializedEcosystemView::Go(gv)).is_prefix_of(s.skip(i)),
    ensures
        "{\"Go\":{\"name\":"@.is_prefix_of(s.skip(i)),
        spec_quote(gv.name).is_prefix_of(s.skip(i + "{\"Go\":{\"name\":"@.len())),
        ",\"host\":"@.is_prefix_of(
            s.skip(i + "{\"Go\":{\"name\":"@.len() + spec_quote(gv.name).len()),
        ),
        spec_quote(gv.host).is_prefix_of(
            s.skip(
                i + "{\"Go\":{\"name\":"@.len() + spec_quote(gv.name).len() + ",\"host\":"@.len(),
            ),
        ),
        "}}"@.is_prefix_of(
            s.skip(
                i + "{\"Go\":{\"name\":"@.len() + spec_quote(gv.name).len() + ",\"host\":"@.len()
                    + spec_quote(gv.host).len(),
            ),
        ),
        spec_write_eco(InitializedEcosystemView::Go(gv)).len() == "{\"Go\":{\"name\":"@.len()
            + spec_quote(gv.name).len() + ",\"host\":"@.len() + spec_quote(gv.host).len()
            + "}}"@.len(),
{
    let ev = InitializedEcosystemView::Go(gv);
    assert(spec_write_eco(ev) =~= "{\"Go\":{\"name\":"@ + (spec_quote(gv.name) + (",\"host\":"@ + (
    spec_quote(gv.host) + "}}"@))));
    lemma_chop(
        "{\"Go\":{\"name\":"@,
        spec_quote(gv.name) + (",\"host\":"@ + (spec_quote(gv.host) + "}}"@)),
        s,
        i,
    );
    lemma_chop(
        spec_quote(gv.name),
        ",\"host\":"@ + (spec_quote(gv.host) + "}}"@),
        s,
        i + "{\"Go\":{\"name\":"@.len(),
    );
    lemma_chop(
        ",\"host\":"@,
        spec_quote(gv.host) + "}}"@,
        s,
        i + "{\"Go\":{\"name\":"@.len() + spec_quote(gv.name).len(),
    );
    lemma_chop(
        spec_quote(gv.host),
        "}}"@,
        s,
        i + "{\"Go\":{\"name\":"@.len() + spec_quote(gv.name).len() + ",\"host\":"@.len(),
    );
}

/// Unpacks the encoding of a Maven ecosystem into its successive parts.
proof fn lemma_maven_chain(s: Seq<char>, i: int, mv: crate::model::InitializedMavenView)
    requires
        0 <= i <= s.len(),
        spec_write_eco(InitializedEcosystemView::Maven(mv)).is_prefix_of(s.skip(i)),
    ensures
        "{\"Maven\":{\"group_id\":"@.is_prefix_of(s.skip(i)),
        spec_quote(mv.group_id).is_prefix_of(s.skip(i + "{\"Maven\":{\"group_id\":"@.len())),
        ",\"artifact_id\":"@.is_prefix_of(
            s.skip(i + "{\"Maven\":{\"group_id\":"@.len() + spec_quote(mv.group_id).len()),
        ),
        spec_quote(mv.artifact_id).is_prefix_of(
            s.skip(
                i + "{\"Maven\":{\"group_id\":"@.len() + spec_quote(mv.group_id).len()
                    + ",\"artifact_id\":"@.len(),
            ),
        ),
        "}}"@.is_prefix_of(
            s.skip(
                i + "{\"Maven\":{\"group_id\":"@.len() + spec_quote(mv.group_id).len()
                    + ",\"artifact_id\":"@.len() + spec_quote(mv.artifact_id).len(),
            ),
        ),
        spec_write_eco(InitializedEcosystemView::Maven(mv)).len()
            == "{\"Maven\":{\"group_id\":"@.len() + spec_quote(mv.group_id).len()
            + ",\"artifact_id\":"@.len() + spec_quote(mv.artifact_id).len() + "}}"@.len(),
{
    let ev = InitializedEcosystemView::Maven(mv);
    assert(spec_write_eco(ev) =~= "{\"Maven\":{\"group_id\":"@ + (spec_quote(mv.group_id) + (
    ",\"artifact_id\":"@ + (spec_quote(mv.artifact_id) + "}}"@))));
    lemma_chop(
        "{\"Maven\":{\"group_id\":"@,
        spec_quote(mv.group_id) + (",\"artifact_id\":"@ + (spec_quote(mv.artifact_id) + "}}"@)),
        s,
        i,
    );
    lemma_chop(
        spec_quote(mv.group_id),
        ",\"artifact_id\":"@ + (spec_quote(mv.artifact_id) + "}}"@),
        s,
        i + "{\"Maven\":{\"group_id\":"@.len(),
    );
    lemma_chop(
        ",\"artifact_id\":"@,
        spec_quote(mv.artifact_id) + "}}"@,
        s,
        i + "{\"Maven\":{\"group_id\":"@.len() + spec_quote(mv.group_id).len(),
    );
    lemma_chop(
        spec_quote(mv.artifact_id),
        "}}"@,
        s,
        i + "{\"Maven\":{\"group_id\":"@.len() + spec_quote(mv.group_id).len()
            + ",\"artifact_id\":"@.len(),
    );
}

/// When the input starts with both the `Go` tag and the encoding of `ev`,
/// `ev` is a `Go` ecosystem.
proof fn lemma_go_head(s: Seq<char>, i: int, ev: InitializedEcosystemView)
    requires
        0 <= i <= s.len(),
        spec_write_eco(ev).is_prefix_of(s.skip(i)),
        "{\"Go\":{\"name\":"@.is_prefix_of(s.skip(i)),
    ensures
        ev is Go,
{
    reveal_strlit("{\"Go\":{\"name\":");
    reveal_strlit("{\"Maven\":{\"group_id\":");
    match ev {
        InitializedEcosystemView::Maven(mv) => {
            lemma_maven_chain(s, i, mv);
            lemma_pref_index("{\"Go\":{\"name\":"@, s.skip(i), 2);
            lemma_pref_index("{\"Maven\":{\"group_id\":"@, s.skip(i), 2);
        },
        InitializedEcosystemView::Go(gv) => {},
    }
}

/// When the input starts with both the `Maven` tag and the encoding of
/// `ev`, `ev` is a `Maven` ecosystem.
proof fn lemma_maven_head(s: Seq<char>, i: int, ev: InitializedEcosystemView)
    requires
        0 <= i <= s.len(),
        spec_write_eco(ev).is_prefix_of(s.skip(i)),
        "{\"Maven\":{\"group_id\":"@.is_prefix_of(s.skip(i)),
    ensures
        ev is Maven,
{
    reveal_strlit("{\"Go\":{\"name\":");
    reveal_strlit("{\"Maven\":{\"group_id\":");
    match ev {
        InitializedEcosystemView::Go(gv) => {
            lemma_go_chain(s, i, gv);
            lemma_pref_index("{\"Go\":{\"name\":"@, s.skip(i), 2);
            lemma_pref_index("{\"Maven\":{\"group_id\":"@, s.skip(i), 2);
        },
        InitializedEcosystemView::Maven(mv) => {},
    }
}

/// Parses an initialized ecosystem.
fn parse_eco(v: &Vec<char>, i: usize) -> (r: Option<(InitializedEcosystem, usize)>)
    requires
        i <= v.len(),
    ensures
        r matches Some(p) ==> i <= p.1 <= v.len(),
        forall|ev: InitializedEcosystemView|
            (#[trigger] spec_write_eco(ev)).is_prefix_of(v@.skip(i as int)) ==> (r matches Some(
                p,
            ) && p.0@ == ev && p.1 == i + spec_write_eco(ev).len()),
{
    match expect_lit(v, i, "{\"Go\":{\"name\":") {
        Some(n1) => {
            let nq = match parse_quoted(v, n1) {
                Some(q) => q,
                None => {
                    proof {
                        assert forall|ev: InitializedEcosystemView|
                            (#[trigger] spec_write_eco(ev)).is_prefix_of(
                                v@.skip(i as int),
                            ) implies false by {
                            lemma_go_head(v@, i as int, ev);
                            lemma_go_chain(v@, i as int, ev->Go_0);
                        }
                    }
                    return None;
                },
            };
            let n2 = match expect_lit(v, nq.1, ",\"host\":") {
                Some(n) => n,
                None => {
                    proof {
                        assert forall|ev: InitializedEcosystemView|
                            (#[trigger] spec_write_eco(ev)).is_prefix_of(
                                v@.skip(i as int),
                            ) implies false by {
                            lemma_go_head(v@, i as int, ev);
                            lemma_go_chain(v@, i as int, ev->Go_0);
                        }
                    }
                    return None;
                },
            };
            let hq = match parse_quoted(v, n2) {
                Some(q) => q,
                None => {
                    proof {
                        assert forall|ev: InitializedEcosystemView|
                            (#[trigger] spec_write_eco(ev)).is_prefix_of(
                                v@.skip(i as int),
                            ) implies false by {
                            lemma_go_head(v@, i as int, ev);
                            lemma_go_chain(v@, i as int, ev->Go_0);
                        }
                    }
                    return None;
                },
            };
            match expect_lit(v, hq.1, "}}") {
                Some(n3) => {
                    let result = InitializedEcosystem::Go(
                        crate::model::InitializedGo { name: nq.0, host: hq.0 },
                    );
                    proof {
                        assert forall|ev: InitializedEcosystemView|
                            (#[trigger] spec_write_eco(ev)).is_prefix_of(
                                v@.skip(i as int),
                            ) implies (result@ == ev && n3 == i + spec_write_eco(ev).len()) by {
                            lemma_go_head(v@, i as int, ev);
                            lemma_go_chain(v@, i as int, ev->Go_0);
                        }
                    }
                    Some((result, n3))
                },
                None => {
                    proof {
                        assert forall|ev: InitializedEcosystemView|
                            (#[trigger] spec_write_eco(ev)).is_prefix_of(
                                v@.skip(i as int),
                            ) implies false by {
                            lemma_go_head(v@, i as int, ev);
                            lemma_go_chain(v@, i as int, ev->Go_0);
                        }
                    }
                    None
                },
            }
        },
        None => {
            match expect_lit(v, i, "{\"Maven\":{\"group_id\":") {
                Some(n1) => {
                    let gq = match parse_quoted(v, n1) {
                        Some(q) => q,
                        None => {
                            proof {
                                assert forall|ev: InitializedEcosystemView|
                                    (#[trigger] spec_write_eco(ev)).is_prefix_of(
                                        v@.skip(i as int),
                                    ) implies false by {
                                    lemma_maven_head(v@, i as int, ev);
                                    lemma_maven_chain(v@, i as int, ev->Maven_0);
                                }
                            }
                            return None;
                        },
                    };
                    let n2 = match expect_lit(v, gq.1, ",\"artifact_id\":") {
                        Some(n) => n,
                        None => {
                            proof {
                                assert forall|ev: InitializedEcosystemView|
                                    (#[trigger] spec_write_eco(ev)).is_prefix_of(
                                        v@.skip(i as int),
                                    ) implies false by {
                                    lemma_maven_head(v@, i as int, ev);
                                    lemma_maven_chain(v@, i as int, ev->Maven_0);
                                }
                            }
                            return None;
                        },
                    };
                    let aq = match parse_quoted(v, n2) {
                        Some(q) => q,
                        None => {
                            proof {
                                assert forall|ev: InitializedEcosystemView|
                                    (#[trigger] spec_write_eco(ev)).is_prefix_of(
                                        v@.skip(i as int),
                                    ) implies false by {
                                    lemma_maven_head(v@, i as int, ev);
                                    lemma_maven_chain(v@, i as int, ev->Maven_0);
                                }
                            }
                            return None;
                        },
                    };
                    match expect_lit(v, aq.1, "}}") {
                        Some(n3) => {
                            let result = InitializedEcosystem::Maven(
                                crate::model::InitializedMaven {
                                    group_id: gq.0,
                                    artifact_id: aq.0,
                                },
                            );
                            proof {
                                assert forall|ev: InitializedEcosystemView|
                                    (#[trigger] spec_write_eco(ev)).is_prefix_of(
                                        v@.skip(i as int),
                                    ) implies (result@ == ev && n3 == i + spec_write_eco(
                                    ev,
                                ).len()) by {
                                    lemma_maven_head(v@, i as int, ev);
                                    lemma_maven_chain(v@, i as int, ev->Maven_0);
                                }
                            }
                            Some((result, n3))
                        },
                        None => {
                            proof {
                                assert forall|ev: InitializedEcosystemView|
                                    (#[trigger] spec_write_eco(ev)).is_prefix_of(
                                        v@.skip(i as int),
                                    ) implies false by {
                                    lemma_maven_head(v@, i as int, ev);
                                    lemma_maven_chain(v@, i as int, ev->Maven_0);
                                }
                            }
                            None
                        },
                    }
                },
                None => {
                    proof {
                        assert forall|ev: InitializedEcosystemView|
                            (#[trigger] spec_write_eco(ev)).is_prefix_of(
                                v@.skip(i as int),
                            ) implies false by {
                            match ev {
                                InitializedEcosystemView::Go(gv) => {
                                    lemma_go_chain(v@, i as int, gv);
                                },
                                InitializedEcosystemView::Maven(mv) => {
                                    lemma_maven_chain(v@, i as int, mv);
                                },
                            }
                        }
                    }
                    None
                },
            }
        },
    }
}

/// Parses a working copy record.
fn parse_source(v: &Vec<char>, i: usize) -> (r: Option<(InitializedSource, usize)>)
    requires
        i <= v.len(),
    ensures
        r matches Some(p) ==> i <= p.1 <= v.len(),
        forall|sv: InitializedSourceView|
            (#[trigger] spec_write_source(sv)).is_prefix_of(v@.skip(i as int)) ==> (r matches Some(
                p,
            ) && p.0@ == sv && p.1 == i + spec_write_source(sv).len()),
{
    let n1 = match expect_lit(v, i, "{\"path\":") {
        Some(n) => n,
        None => {
            proof {
                assert forall|sv: InitializedSourceView|
                    (#[trigger] spec_write_source(sv)).is_prefix_of(v@.skip(i as int)) implies
                false by {
                    assert(spec_write_source(sv) =~= "{\"path\":"@ + (spec_quote(sv.path)
                        + "}"@));
                    lemma_chop("{\"path\":"@, spec_quote(sv.path) + "}"@, v@, i as int);
                }
            }
            return None;
        },
    };
    let q = match parse_quoted(v, n1) {
        Some(q) => q,
        None => {
            proof {
                assert forall|sv: InitializedSourceView|
                    (#[trigger] spec_write_source(sv)).is_prefix_of(v@.skip(i as int)) implies
                false by {
                    assert(spec_write_source(sv) =~= "{\"path\":"@ + (spec_quote(sv.path)
                        + "}"@));
                    lemma_chop("{\"path\":"@, spec_quote(sv.path) + "}"@, v@, i as int);
                    lemma_chop(spec_quote(sv.path), "}"@, v@, n1 as int);
                }
            }
            return None;
        },
    };
    match expect_lit(v, q.1, "}") {
        Some(n3) => {
            let result = InitializedSource { path: q.0 };
            proof {
                assert forall|sv: InitializedSourceView|
                    (#[trigger] spec_write_source(sv)).is_prefix_of(v@.skip(i as int)) implies (
                result@ == sv && n3 == i + spec_write_source(sv).len()) by {
                    assert(spec_write_source(sv) =~= "{\"path\":"@ + (spec_quote(sv.path)
                        + "}"@));
                    lemma_chop("{\"path\":"@, spec_quote(sv.path) + "}"@, v@, i as int);
                    lemma_chop(spec_quote(sv.path), "}"@, v@, n1 as int);
                }
            }
            Some((result, n3))
        },
        None => {
            proof {
                assert forall|sv: InitializedSourceView|
                    (#[trigger] spec_write_source(sv)).is_prefix_of(v@.skip(i as int)) implies
                false by {
                    assert(spec_write_source(sv) =~= "{\"path\":"@ + (spec_quote(sv.path)
                        + "}"@));
                    lemma_chop("{\"path\":"@, spec_quote(sv.path) + "}"@, v@, i as int);
                    lemma_chop(spec_quote(sv.path), "}"@, v@, n1 as int);
                }
            }
            None
        },
    }
}

/// Parses a quoted facet type name.
fn parse_type_name(v: &Vec<char>, i: usize) -> (r: Option<(SupportedFacetType, usize)>)
    requires
        i <= v.len(),
    ensures
        r matches Some(p) ==> i <= p.1 <= v.len(),
        forall|t: SupportedFacetType|
            (#[trigger] spec_quote(spec_facet_type_name(t))).is_prefix_of(v@.skip(i as int)) ==> (
            r matches Some(p) && p.0 == t && p.1 == i + spec_quote(spec_facet_type_name(t)).len()),
{
    match parse_quoted(v, i) {
        Some((s, n)) => {
            match SupportedFacetType::parse(s.as_str()) {
                Some(t) => Some((t, n)),
                None => None,
            }
        },
        None => None,
    }
}

/// Unpacks the encoding of an API call record into its successive parts.
proof fn lemma_api_chain(s: Seq<char>, i: int, av: APIContentView)
    requires
        0 <= i <= s.len(),
        spec_write_api(av).is_prefix_of(s.skip(i)),
    ensures
        "{\"name\":"@.is_prefix_of(s.skip(i)),
        spec_quote(av.name).is_prefix_of(s.skip(i + "{\"name\":"@.len())),
        ",\"url\":"@.is_prefix_of(s.skip(i + "{\"name\":"@.len() + spec_quote(av.name).len())),
        spec_quote(av.url).is_prefix_of(
            s.skip(i + "{\"name\":"@.len() + spec_quote(av.name).len() + ",\"url\":"@.len()),
        ),
        ",\"response\":"@.is_prefix_of(
            s.skip(
                i + "{\"name\":"@.len() + spec_quote(av.name).len() + ",\"url\":"@.len()
                    + spec_quote(av.url).len(),
            ),
        ),
        spec_quote(av.response).is_prefix_of(
            s.skip(
                i + "{\"name\":"@.len() + spec_quote(av.name).len() + ",\"url\":"@.len()
                    + spec_quote(av.url).len() + ",\"response\":"@.len(),
            ),
        ),
        "}"@.is_prefix_of(
            s.skip(
                i + "{\"name\":"@.len() + spec_quote(av.name).len() + ",\"url\":"@.len()
                    + spec_quote(av.url).len() + ",\"response\":"@.len() + spec_quote(
                    av.response,
                ).len(),
            ),
        ),
        spec_write_api(av).len() == "{\"name\":"@.len() + spec_quote(av.name).len()
            + ",\"url\":"@.len() + spec_quote(av.url).len() + ",\"response\":"@.len()
            + spec_quote(av.response).len() + "}"@.len(),
{
    assert(spec_write_api(av) =~= "{\"name\":"@ + (spec_quote(av.name) + (",\"url\":"@ + (
    spec_quote(av.url) + (",\"response\":"@ + (spec_quote(av.response) + "}"@))))));
    lemma_chop(
        "{\"name\":"@,
        spec_quote(av.name) + (",\"url\":"@ + (spec_quote(av.url) + (",\"response\":"@ + (
        spec_quote(av.response) + "}"@)))),
        s,
        i,
    );
    lemma_chop(
        spec_quote(av.name),
        ",\"url\":"@ + (spec_quote(av.url) + (",\"response\":"@ + (spec_quote(av.response)
            + "}"@))),
        s,
        i + "{\"name\":"@.len(),
    );
    lemma_chop(
        ",\"url\":"@,
        spec_quote(av.url) + (",\"response\":"@ + (spec_quote(av.response) + "}"@)),
        s,
        i + "{\"name\":"@.len() + spec_quote(av.name).len(),
    );
    lemma_chop(
        spec_quote(av.url),
        ",\"response\":"@ + (spec_quote(av.response) + "}"@),
        s,
        i + "{\"name\":"@.len() + spec_quote(av.name).len() + ",\"url\":"@.len(),
    );
    lemma_chop(
        ",\"response\":"@,
        spec_quote(av.response) + "}"@,
        s,
        i + "{\"name\":"@.len() + spec_quote(av.name).len() + ",\"url\":"@.len() + spec_quote(
            av.url,
        ).len(),
    );
    lemma_chop(
        spec_quote(av.response),
        "}"@,
        s,
        i + "{\"name\":"@.len() + spec_quote(av.name).len() + ",\"url\":"@.len() + spec_quote(
            av.url,
        ).len() + ",\"response\":"@.len(),
    );
}

/// Parses one API call record.
fn parse_api(v: &Vec<char>, i: usize) -> (r: Option<(APIContent, usize)>)
    requires
        i <= v.len(),
    ensures
        r matches Some(p) ==> i <= p.1 <= v.len(),
        forall|av: APIContentView|
            (#[trigger] spec_write_api(av)).is_prefix_of(v@.skip(i as int)) ==> (r matches Some(p)
                && p.0@ == av && p.1 == i + spec_write_api(av).len()),
{
    let n1 = match expect_lit(v, i, "{\"name\":") {
        Some(n) => n,
        None => {
            proof {
                assert forall|av: APIContentView|
                    (#[trigger] spec_write_api(av)).is_prefix_of(v@.skip(i as int)) implies
                false by {
                    lemma_api_chain(v@, i as int, av);
                }
            }
            return None;
        },
    };
    let nq = match parse_quoted(v, n1) {
        Some(q) => q,
        None => {
            proof {
                assert forall|av: APIContentView|
                    (#[trigger] spec_write_api(av)).is_prefix_of(v@.skip(i as int)) implies
                false by {
                    lemma_api_chain(v@, i as int, av);
                }
            }
            return None;
        },
    };
    let n2 = match expect_lit(v, nq.1, ",\"url\":") {
        Some(n) => n,
        None => {
            proof {
                assert forall|av: APIContentView|
                    (#[trigger] spec_write_api(av)).is_prefix_of(v@.skip(i as int)) implies
                false by {
                    lemma_api_chain(v@, i as int, av);
                }
            }
            return None;
        },
    };
    let uq = match parse_quoted(v, n2) {
        Some(q) => q,
        None => {
            proof {
                assert forall|av: APIContentView|
                    (#[trigger] spec_write_api(av)).is_prefix_of(v@.skip(i as int)) implies
                false by {
                    lemma_api_chain(v@, i as int, av);
                }
            }
            return None;
        },
    };
    let n3 = match expect_lit(v, uq.1, ",\"response\":") {
        Some(n) => n,
        None => {
            proof {
                assert forall|av: APIContentView|
                    (#[trigger] spec_write_api(av)).is_prefix_of(v@.skip(i as int)) implies
                false by {
                    lemma_api_chain(v@, i as int, av);
                }
            }
            return None;
        },
    };
    let rq = match parse_quoted(v, n3) {
        Some(q) => q,
        None => {
            proof {
                assert forall|av: APIContentView|
                    (#[trigger] spec_write_api(av)).is_prefix_of(v@.skip(i as int)) implies
                false by {
                    lemma_api_chain(v@, i as int, av);
                }
            }
            return None;
        },
    };
    match expect_lit(v, rq.1, "}") {
        Some(n4) => {
            let result = APIContent { name: nq.0, url: uq.0, response: rq.0 };
            proof {
                assert forall|av: APIContentView|
                    (#[trigger] spec_write_api(av)).is_prefix_of(v@.skip(i as int)) implies (
                result@ == av && n4 == i + spec_write_api(av).len()) by {
                    lemma_api_chain(v@, i as int, av);
                }
            }
            Some((result, n4))
        },
        None => {
            proof {
                assert forall|av: APIContentView|
                    (#[trigger] spec_write_api(av)).is_prefix_of(v@.skip(i as int)) implies
                false by {
                    lemma_api_chain(v@, i as int, av);
                }
            }
            None
        },
    }
}

/// Parses a source file array.
#[verifier::rlimit(50)]
#[verifier::loop_isolation(false)]
fn parse_files(v: &Vec<char>, i: usize) -> (r: Option<(Vec<SourceFile>, usize)>)
    requires
        i <= v.len(),
    ensures
        r matches Some(p) ==> i <= p.1 <= v.len(),
        forall|fsv: Seq<SourceFileView>|
            wf_files(fsv) && (#[trigger] spec_write_files(fsv)).is_prefix_of(v@.skip(i as int))
                ==> (r matches Some(p) && views_of_files(p.0@) == fsv && p.1 == i
                + spec_write_files(fsv).len()),
{
    proof {
        reveal_strlit("[");
        reveal_strlit("]");
        reveal_strlit(",");
    }
    let n1 = match expect_lit(v, i, "[") {
        Some(n) => n,
        None => {
            proof {
                assert forall|fsv: Seq<SourceFileView>|
                    wf_files(fsv) && (#[trigger] spec_write_files(fsv)).is_prefix_of(
                        v@.skip(i as int),
                    ) implies false by {
                    assert(spec_write_files(fsv) =~= "["@ + (spec_write_files_items(fsv)
                        + "]"@));
                    lemma_chop("["@, spec_write_files_items(fsv) + "]"@, v@, i as int);
                }
            }
            return None;
        },
    };
    proof {
        assert forall|fsv: Seq<SourceFileView>|
            wf_files(fsv) && (#[trigger] spec_write_files(fsv)).is_prefix_of(
                v@.skip(i as int),
            ) implies (spec_write_files_items(fsv) + "]"@).is_prefix_of(v@.skip(n1 as int)) by {
            assert(spec_write_files(fsv) =~= "["@ + (spec_write_files_items(fsv) + "]"@));
            lemma_chop("["@, spec_write_files_items(fsv) + "]"@, v@, i as int);
        }
    }
    match expect_lit(v, n1, "]") {
        Some(n2) => {
            let out: Vec<SourceFile> = Vec::new();
            proof {
                assert forall|fsv: Seq<SourceFileView>|
                    wf_files(fsv) && (#[trigger] spec_write_files(fsv)).is_prefix_of(
                        v@.skip(i as int),
                    ) implies (views_of_files(out@) == fsv && n2 == i + spec_write_files(
                    fsv,
                ).len()) by {
                    if fsv.len() > 0 {
                        lemma_chop(
                            spec_write_file(fsv[0]),
                            spec_write_files_more(fsv.skip(1)) + "]"@,
                            v@,
                            n1 as int,
                        );
                        lemma_pref_index(spec_write_file(fsv[0]), v@.skip(n1 as int), 0);
                        lemma_pref_index("]"@, v@.skip(n1 as int), 0);
                        assert(spec_write_files_items(fsv) =~= spec_write_file(fsv[0]) + (
                        spec_write_files_more(fsv.skip(1)) + "]"@).take(
                            spec_write_files_more(fsv.skip(1)).len() as int,
                        ));
                    }
                    assert(views_of_files(out@) =~= fsv);
                }
            }
            return Some((out, n2));
        },
        None => {
        },
    }
    // a nonempty array
    let first = match parse_quoted(v, n1) {
        Some(q) => q,
        None => {
            proof {
                assert forall|fsv: Seq<SourceFileView>|
                    wf_files(fsv) && (#[trigger] spec_write_files(fsv)).is_prefix_of(
                        v@.skip(i as int),
                    ) implies false by {
                    if fsv.len() == 0 {
                        assert(spec_write_files_items(fsv) =~= Seq::<char>::empty());
                        assert((spec_write_files_items(fsv) + "]"@) =~= "]"@);
                    } else {
                        assert((spec_write_files_items(fsv) + "]"@) =~= spec_write_file(fsv[0]) + (
                        spec_write_files_more(fsv.skip(1)) + "]"@));
                        lemma_chop(
                            spec_write_file(fsv[0]),
                            spec_write_files_more(fsv.skip(1)) + "]"@,
                            v@,
                            n1 as int,
                        );
                    }
                }
            }
            return None;
        },
    };
    let f0 = match SourceFile::parse(first.0.as_str()) {
        Some(f) => f,
        None => {
            proof {
                assert forall|fsv: Seq<SourceFileView>|
                    wf_files(fsv) && (#[trigger] spec_write_files(fsv)).is_prefix_of(
                        v@.skip(i as int),
                    ) implies false by {
                    if fsv.len() == 0 {
                        assert(spec_write_files_items(fsv) =~= Seq::<char>::empty());
                        assert((spec_write_files_items(fsv) + "]"@) =~= "]"@);
                    } else {
                        assert((spec_write_files_items(fsv) + "]"@) =~= spec_write_file(fsv[0]) + (
                        spec_write_files_more(fsv.skip(1)) + "]"@));
                        lemma_chop(
                            spec_write_file(fsv[0]),
                            spec_write_files_more(fsv.skip(1)) + "]"@,
                            v@,
                            n1 as int,
                        );
                        assert(wf_source_file(fsv[0]));
                    }
                }
            }
            return None;
        },
    };
    let mut out: Vec<SourceFile> = Vec::new();
    out.push(f0);
    let mut cur: usize = first.1;
    proof {
        assert forall|fsv: Seq<SourceFileView>|
            wf_files(fsv) && (#[trigger] spec_write_files(fsv)).is_prefix_of(
                v@.skip(i as int),
            ) implies {
            &&& out@.len() <= fsv.len()
            &&& views_of_files(out@) == fsv.take(out@.len() as int)
            &&& (spec_write_files_more(fsv.skip(out@.len() as int)) + "]"@).is_prefix_of(
                v@.skip(cur as int),
            )
            &&& cur + spec_write_files_more(fsv.skip(out@.len() as int)).len() + 1 == i
                + spec_write_files(fsv).len()
        } by {
            if fsv.len() == 0 {
                assert(spec_write_files_items(fsv) =~= Seq::<char>::empty());
                assert((spec_write_files_items(fsv) + "]"@) =~= "]"@);
            } else {
                assert((spec_write_files_items(fsv) + "]"@) =~= spec_write_file(fsv[0]) + (
                spec_write_files_more(fsv.skip(1)) + "]"@));
                lemma_chop(
                    spec_write_file(fsv[0]),
                    spec_write_files_more(fsv.skip(1)) + "]"@,
                    v@,
                    n1 as int,
                );
                assert(views_of_files(out@) =~= fsv.take(1));
            }
        }
    }
    loop
        invariant
            i < cur <= v.len(),
            out.len() >= 1,
            forall|fsv: Seq<SourceFileView>|
                wf_files(fsv) && (#[trigger] spec_write_files(fsv)).is_prefix_of(
                    v@.skip(i as int),
                ) ==> {
                    &&& out@.len() <= fsv.len()
                    &&& views_of_files(out@) == fsv.take(out@.len() as int)
                    &&& (spec_write_files_more(fsv.skip(out@.len() as int)) + "]"@).is_prefix_of(
                        v@.skip(cur as int),
                    )
                    &&& cur + spec_write_files_more(fsv.skip(out@.len() as int)).len() + 1 == i
                        + spec_write_files(fsv).len()
                },
        decreases v.len() - cur,
    {
        match expect_lit(v, cur, ",") {
            Some(c2) => {
                let nxt = match parse_quoted(v, c2) {
                    Some(q) => q,
                    None => {
                        proof {
                            assert forall|fsv: Seq<SourceFileView>|
                                wf_files(fsv) && (#[trigger] spec_write_files(fsv)).is_prefix_of(
                                    v@.skip(i as int),
                                ) implies false by {
                                lemma_files_step(v@, cur as int, fsv, out@.len() as int);
                            }
                        }
                        return None;
                    },
                };
                let f = match SourceFile::parse(nxt.0.as_str()) {
                    Some(f) => f,
                    None => {
                        proof {
                            assert forall|fsv: Seq<SourceFileView>|
                                wf_files(fsv) && (#[trigger] spec_write_files(fsv)).is_prefix_of(
                                    v@.skip(i as int),
                                ) implies false by {
                                lemma_files_step(v@, cur as int, fsv, out@.len() as int);
                                assert(wf_source_file(fsv[out@.len() as int]));
                            }
                        }
                        return None;
                    },
                };
                let ghost m = out@.len() as int;
                out.push(f);
                let ghost oldcur = cur as int;
                cur = nxt.1;
                proof {
                    assert forall|fsv: Seq<SourceFileView>|
                        wf_files(fsv) && (#[trigger] spec_write_files(fsv)).is_prefix_of(
                            v@.skip(i as int),
                        ) implies {
                        &&& out@.len() <= fsv.len()
                        &&& views_of_files(out@) == fsv.take(out@.len() as int)
                        &&& (spec_write_files_more(fsv.skip(out@.len() as int))
                            + "]"@).is_prefix_of(v@.skip(cur as int))
                        &&& cur + spec_write_files_more(fsv.skip(out@.len() as int)).len() + 1 == i
                            + spec_write_files(fsv).len()
                    } by {
                        lemma_files_step(v@, oldcur, fsv, m);
                        assert(views_of_files(out@) =~= fsv.take(m + 1));
                    }
                }
            },
            None => {
                match expect_lit(v, cur, "]") {
                    Some(c2) => {
                        proof {
                            assert forall|fsv: Seq<SourceFileView>|
                                wf_files(fsv) && (#[trigger] spec_write_files(fsv)).is_prefix_of(
                                    v@.skip(i as int),
                                ) implies (views_of_files(out@) == fsv && c2 == i
                                + spec_write_files(fsv).len()) by {
                                let m = out@.len() as int;
                                if m < fsv.len() {
                                    lemma_files_more_unfold(v@, cur as int, fsv, m);
                                }
                                assert(m == fsv.len());
                                assert(spec_write_files_more(fsv.skip(m)) =~= Seq::<
                                    char,
                                >::empty());
                                assert(views_of_files(out@) =~= fsv);
                            }
                        }
                        return Some((out, c2));
                    },
                    None => {
                        proof {
                            assert forall|fsv: Seq<SourceFileView>|
                                wf_files(fsv) && (#[trigger] spec_write_files(fsv)).is_prefix_of(
                                    v@.skip(i as int),
                                ) implies false by {
                                let m = out@.len() as int;
                                if m < fsv.len() {
                                    lemma_files_more_unfold(v@, cur as int, fsv, m);
                                } else {
                                    assert(spec_write_files_more(fsv.skip(m)) =~= Seq::<
                                        char,
                                    >::empty());
                                    assert((spec_write_files_more(fsv.skip(m)) + "]"@) =~= "]"@);
                                }
                            }
                        }
                        return None;
                    },
                }
            },
        }
    }
}

/// When more files remain, the run at `cur` starts with a comma.
proof fn lemma_files_more_unfold(s: Seq<char>, cur: int, fsv: Seq<SourceFileView>, m: int)
    requires
        0 <= cur <= s.len(),
        0 <= m < fsv.len(),
        (spec_write_files_more(fsv.skip(m)) + "]"@).is_prefix_of(s.skip(cur)),
    ensures
        ","@.is_prefix_of(s.skip(cur)),
        (spec_write_file(fsv[m]) + (spec_write_files_more(fsv.skip(m + 1)) + "]"@)).is_prefix_of(
            s.skip(cur + 1),
        ),
{
    reveal_strlit(",");
    assert(fsv.skip(m)[0] == fsv[m]);
    assert(fsv.skip(m).skip(1) =~= fsv.skip(m + 1));
    assert((spec_write_files_more(fsv.skip(m)) + "]"@) =~= ","@ + (spec_write_file(fsv[m]) + (
    spec_write_files_more(fsv.skip(m + 1)) + "]"@)));
    lemma_chop(
        ","@,
        spec_write_file(fsv[m]) + (spec_write_files_more(fsv.skip(m + 1)) + "]"@),
        s,
        cur,
    );
}

/// One step of the file array: after the comma at `cur`, the next record
/// and the remaining run follow.
proof fn lemma_files_step(s: Seq<char>, cur: int, fsv: Seq<SourceFileView>, m: int)
    requires
        0 <= cur <= s.len(),
        1 <= m <= fsv.len(),
        ","@.is_prefix_of(s.skip(cur)),
        (spec_write_files_more(fsv.skip(m)) + "]"@).is_prefix_of(s.skip(cur)),
    ensures
        m < fsv.len(),
        spec_write_file(fsv[m]).is_prefix_of(s.skip(cur + 1)),
        (spec_write_files_more(fsv.skip(m + 1)) + "]"@).is_prefix_of(
            s.skip(cur + 1 + spec_write_file(fsv[m]).len()),
        ),
        spec_write_files_more(fsv.skip(m)).len() == 1 + spec_write_file(fsv[m]).len()
            + spec_write_files_more(fsv.skip(m + 1)).len(),
{
    reveal_strlit(",");
    reveal_strlit("]");
    if m == fsv.len() {
        assert(spec_write_files_more(fsv.skip(m)) =~= Seq::<char>::empty());
        assert((spec_write_files_more(fsv.skip(m)) + "]"@) =~= "]"@);
        lemma_pref_index("]"@, s.skip(cur), 0);
        lemma_pref_index(","@, s.skip(cur), 0);
    }
    lemma_files_more_unfold(s, cur, fsv, m);
    lemma_chop(
        spec_write_file(fsv[m]),
        spec_write_files_more(fsv.skip(m + 1)) + "]"@,
        s,
        cur + 1,
    );
    assert(fsv.skip(m).skip(1) =~= fsv.skip(m + 1));
}

/// Parses an API call array.
#[verifier::rlimit(100)]
#[verifier::loop_isolation(false)]
fn parse_apis(v: &Vec<char>, i: usize) -> (r: Option<(Vec<APIContent>, usize)>)
    requires
        i <= v.len(),
    ensures
        r matches Some(p) ==> i <= p.1 <= v.len(),
        forall|csv: Seq<APIContentView>|
            (#[trigger] spec_write_apis(csv)).is_prefix_of(v@.skip(i as int)) ==> (r matches Some(
                p,
            ) && views_of_apis(p.0@) == csv && p.1 == i + spec_write_apis(csv).len()),
{
    proof {
        reveal_strlit("[");
        reveal_strlit("]");
        reveal_strlit(",");
        reveal_strlit("{\"name\":");
    }
    let n1 = match expect_lit(v, i, "[") {
        Some(n) => n,
        None => {
            proof {
                assert forall|csv: Seq<APIContentView>|
                    (#[trigger] spec_write_apis(csv)).is_prefix_of(v@.skip(i as int)) implies
                false by {
                    assert(spec_write_apis(csv) =~= "["@ + (spec_write_apis_items(csv) + "]"@));
                    lemma_chop("["@, spec_write_apis_items(csv) + "]"@, v@, i as int);
                }
            }
            return None;
        },
    };
    proof {
        assert forall|csv: Seq<APIContentView>|
            (#[trigger] spec_write_apis(csv)).is_prefix_of(v@.skip(i as int)) implies (
        spec_write_apis_items(csv) + "]"@).is_prefix_of(v@.skip(n1 as int)) by {
            assert(spec_write_apis(csv) =~= "["@ + (spec_write_apis_items(csv) + "]"@));
            lemma_chop("["@, spec_write_apis_items(csv) + "]"@, v@, i as int);
        }
    }
    match expect_lit(v, n1, "]") {
        Some(n2) => {
            let out: Vec<APIContent> = Vec::new();
            proof {
                assert forall|csv: Seq<APIContentView>|
                    (#[trigger] spec_write_apis(csv)).is_prefix_of(v@.skip(i as int)) implies (
                views_of_apis(out@) == csv && n2 == i + spec_write_apis(csv).len()) by {
                    if csv.len() > 0 {
                        lemma_chop(
                            spec_write_api(csv[0]),
                            spec_write_apis_more(csv.skip(1)) + "]"@,
                            v@,
                            n1 as int,
                        );
                        lemma_api_chain(v@, n1 as int, csv[0]);
                        lemma_pref_index("{\"name\":"@, v@.skip(n1 as int), 0);
                        lemma_pref_index("]"@, v@.skip(n1 as int), 0);
                    }
                    assert(views_of_apis(out@) =~= csv);
                }
            }
            return Some((out, n2));
        },
        None => {
        },
    }
    let first = match parse_api(v, n1) {
        Some(q) => q,
        None => {
            proof {
                assert forall|csv: Seq<APIContentView>|
                    (#[trigger] spec_write_apis(csv)).is_prefix_of(v@.skip(i as int)) implies
                false by {
                    if csv.len() == 0 {
                        assert(spec_write_apis_items(csv) =~= Seq::<char>::empty());
                        assert((spec_write_apis_items(csv) + "]"@) =~= "]"@);
                    } else {
                        assert((spec_write_apis_items(csv) + "]"@) =~= spec_write_api(csv[0]) + (
                        spec_write_apis_more(csv.skip(1)) + "]"@));
                        lemma_chop(
                            spec_write_api(csv[0]),
                            spec_write_apis_more(csv.skip(1)) + "]"@,
                            v@,
                            n1 as int,
                        );
                    }
                }
            }
            return None;
        },
    };
    let mut out: Vec<APIContent> = Vec::new();
    out.push(first.0);
    let mut cur: usize = first.1;
    proof {
        assert forall|csv: Seq<APIContentView>|
            (#[trigger] spec_write_apis(csv)).is_prefix_of(v@.skip(i as int)) implies {
            &&& out@.len() <= csv.len()
            &&& views_of_apis(out@) == csv.take(out@.len() as int)
            &&& (spec_write_apis_more(csv.skip(out@.len() as int)) + "]"@).is_prefix_of(
                v@.skip(cur as int),
            )
            &&& cur + spec_write_apis_more(csv.skip(out@.len() as int)).len() + 1 == i
                + spec_write_apis(csv).len()
        } by {
            if csv.len() == 0 {
                assert(spec_write_apis_items(csv) =~= Seq::<char>::empty());
                assert((spec_write_apis_items(csv) + "]"@) =~= "]"@);
            } else {
                assert((spec_write_apis_items(csv) + "]"@) =~= spec_write_api(csv[0]) + (
                spec_write_apis_more(csv.skip(1)) + "]"@));
                lemma_chop(
                    spec_write_api(csv[0]),
                    spec_write_apis_more(csv.skip(1)) + "]"@,
                    v@,
                    n1 as int,
                );
                assert(views_of_apis(out@) =~= csv.take(1));
            }
        }
    }
    loop
        invariant
            i < cur <= v.len(),
            out.len() >= 1,
            forall|csv: Seq<APIContentView>|
                (#[trigger] spec_write_apis(csv)).is_prefix_of(v@.skip(i as int)) ==> {
                    &&& out@.len() <= csv.len()
                    &&& views_of_apis(out@) == csv.take(out@.len() as int)
                    &&& (spec_write_apis_more(csv.skip(out@.len() as int)) + "]"@).is_prefix_of(
                        v@.skip(cur as int),
                    )
                    &&& cur + spec_write_apis_more(csv.skip(out@.len() as int)).len() + 1 == i
                        + spec_write_apis(csv).len()
                },
        decreases v.len() - cur,
    {
        match expect_lit(v, cur, ",") {
            Some(c2) => {
                let nxt = match parse_api(v, c2) {
                    Some(q) => q,
                    None => {
                        proof {
                            assert forall|csv: Seq<APIContentView>|
                                (#[trigger] spec_write_apis(csv)).is_prefix_of(
                                    v@.skip(i as int),
                                ) implies false by {
                                lemma_apis_step(v@, cur as int, csv, out@.len() as int);
                            }
                        }
                        return None;
                    },
                };
                let ghost m = out@.len() as int;
                out.push(nxt.0);
                let ghost oldcur = cur as int;
                cur = nxt.1;
                proof {
                    assert forall|csv: Seq<APIContentView>|
                        (#[trigger] spec_write_apis(csv)).is_prefix_of(
                            v@.skip(i as int),
                        ) implies {
                        &&& out@.len() <= csv.len()
                        &&& views_of_apis(out@) == csv.take(out@.len() as int)
                        &&& (spec_write_apis_more(csv.skip(out@.len() as int))
                            + "]"@).is_prefix_of(v@.skip(cur as int))
                        &&& cur + spec_write_apis_more(csv.skip(out@.len() as int)).len() + 1 == i
                            + spec_write_apis(csv).len()
                    } by {
                        lemma_apis_step(v@, oldcur, csv, m);
                        assert(views_of_apis(out@) =~= csv.take(m + 1));
                    }
                }
            },
            None => {
                match expect_lit(v, cur, "]") {
                    Some(c2) => {
                        proof {
                            assert forall|csv: Seq<APIContentView>|
                                (#[trigger] spec_write_apis(csv)).is_prefix_of(
                                    v@.skip(i as int),
                                ) implies (views_of_apis(out@) == csv && c2 == i + spec_write_apis(
                                csv,
                            ).len()) by {
                                let m = out@.len() as int;
                                if m < csv.len() {
                                    lemma_apis_more_unfold(v@, cur as int, csv, m);
                                }
                                assert(m == csv.len());
                                assert(spec_write_apis_more(csv.skip(m)) =~= Seq::<char>::empty());
                                assert(views_of_apis(out@) =~= csv);
                            }
                        }
                        return Some((out, c2));
                    },
                    None => {
                        proof {
                            assert forall|csv: Seq<APIContentView>|
                                (#[trigger] spec_write_apis(csv)).is_prefix_of(
                                    v@.skip(i as int),
                                ) implies false by {
                                let m = out@.len() as int;
                                if m < csv.len() {
                                    lemma_apis_more_unfold(v@, cur as int, csv, m);
                                } else {
                                    assert(spec_write_apis_more(csv.skip(m)) =~= Seq::<
                                        char,
                                    >::empty());
                                    assert((spec_write_apis_more(csv.skip(m)) + "]"@) =~= "]"@);
                                }
                            }
                        }
                        return None;
                    },
                }
            },
        }
    }
}

/// When more API calls remain, the run at `cur` starts with a comma.
proof fn lemma_apis_more_unfold(s: Seq<char>, cur: int, csv: Seq<APIContentView>, m: int)
    requires
        0 <= cur <= s.len(),
        0 <= m < csv.len(),
        (spec_write_apis_more(csv.skip(m)) + "]"@).is_prefix_of(s.skip(cur)),
    ensures
        ","@.is_prefix_of(s.skip(cur)),
        (spec_write_api(csv[m]) + (spec_write_apis_more(csv.skip(m + 1)) + "]"@)).is_prefix_of(
            s.skip(cur + 1),
        ),
{
    reveal_strlit(",");
    assert(csv.skip(m)[0] == csv[m]);
    assert(csv.skip(m).skip(1) =~= csv.skip(m + 1));
    assert((spec_write_apis_more(csv.skip(m)) + "]"@) =~= ","@ + (spec_write_api(csv[m]) + (
    spec_write_apis_more(csv.skip(m + 1)) + "]"@)));
    lemma_chop(
        ","@,
        spec_write_api(csv[m]) + (spec_write_apis_more(csv.skip(m + 1)) + "]"@),
        s,
        cur,
    );
}

/// One step of the API call array.
proof fn lemma_apis_step(s: Seq<char>, cur: int, csv: Seq<APIContentView>, m: int)
    requires
        0 <= cur <= s.len(),
        1 <= m <= csv.len(),
        ","@.is_prefix_of(s.skip(cur)),
        (spec_write_apis_more(csv.skip(m)) + "]"@).is_prefix_of(s.skip(cur)),
    ensures
        m < csv.len(),
        spec_write_api(csv[m]).is_prefix_of(s.skip(cur + 1)),
        (spec_write_apis_more(csv.skip(m + 1)) + "]"@).is_prefix_of(
            s.skip(cur + 1 + spec_write_api(csv[m]).len()),
        ),
        spec_write_apis_more(csv.skip(m)).len() == 1 + spec_write_api(csv[m]).len()
            + spec_write_apis_more(csv.skip(m + 1)).len(),
{
    reveal_strlit(",");
    reveal_strlit("]");
    if m == csv.len() {
        assert(spec_write_apis_more(csv.skip(m)) =~= Seq::<char>::empty());
        assert((spec_write_apis_more(csv.skip(m)) + "]"@) =~= "]"@);
        lemma_pref_index("]"@, s.skip(cur), 0);
        lemma_pref_index(","@, s.skip(cur), 0);
    }
    lemma_apis_more_unfold(s, cur, csv, m);
    lemma_chop(
        spec_write_api(csv[m]),
        spec_write_apis_more(csv.skip(m + 1)) + "]"@,
        s,
        cur + 1,
    );
    assert(csv.skip(m).skip(1) =~= csv.skip(m + 1));
}

/// Unpacks the encoding of a source bundle facet.
proof fn lemma_sb_chain(s: Seq<char>, i: int, sbv: SourceBundleFacetView)
    requires
        0 <= i <= s.len(),
        spec_write_sb(sbv).is_prefix_of(s.skip(i)),
    ensures
        "{\"source_files\":"@.is_prefix_of(s.skip(i)),
        spec_write_files(sbv.source_files->Some_0).is_prefix_of(
            s.skip(i + "{\"source_files\":"@.len()),
        ),
        ",\"facet_type\":"@.is_prefix_of(
            s.skip(
                i + "{\"source_files\":"@.len() + spec_write_files(
                    sbv.source_files->Some_0,
                ).len(),
            ),
        ),
        spec_quote(spec_facet_type_name(sbv.facet_type)).is_prefix_of(
            s.skip(
                i + "{\"source_files\":"@.len() + spec_write_files(sbv.source_files->Some_0).len()
                    + ",\"facet_type\":"@.len(),
            ),
        ),
        "}"@.is_prefix_of(
            s.skip(
                i + "{\"source_files\":"@.len() + spec_write_files(sbv.source_files->Some_0).len()
                    + ",\"facet_type\":"@.len() + spec_quote(
                    spec_facet_type_name(sbv.facet_type),
                ).len(),
            ),
        ),
        spec_write_sb(sbv).len() == "{\"source_files\":"@.len() + spec_write_files(
            sbv.source_files->Some_0,
        ).len() + ",\"facet_type\":"@.len() + spec_quote(
            spec_facet_type_name(sbv.facet_type),
        ).len() + "}"@.len(),
{
    let fs = sbv.source_files->Some_0;
    assert(spec_write_sb(sbv) =~= "{\"source_files\":"@ + (spec_write_files(fs) + (
    ",\"facet_type\":"@ + (spec_quote(spec_facet_type_name(sbv.facet_type)) + "}"@))));
    lemma_chop(
        "{\"source_files\":"@,
        spec_write_files(fs) + (",\"facet_type\":"@ + (spec_quote(
            spec_facet_type_name(sbv.facet_type),
        ) + "}"@)),
        s,
        i,
    );
    lemma_chop(
        spec_write_files(fs),
        ",\"facet_type\":"@ + (spec_quote(spec_facet_type_name(sbv.facet_type)) + "}"@),
        s,
        i + "{\"source_files\":"@.len(),
    );
    lemma_chop(
        ",\"facet_type\":"@,
        spec_quote(spec_facet_type_name(sbv.facet_type)) + "}"@,
        s,
        i + "{\"source_files\":"@.len() + spec_write_files(fs).len(),
    );
    lemma_chop(
        spec_quote(spec_facet_type_name(sbv.facet_type)),
        "}"@,
        s,
        i + "{\"source_files\":"@.len() + spec_write_files(fs).len() + ",\"facet_type\":"@.len(),
    );
}

/// Parses a source bundle facet.
fn parse_sb(v: &Vec<char>, i: usize) -> (r: Option<(crate::facet::SourceBundleFacet, usize)>)
    requires
        i <= v.len(),
    ensures
        r matches Some(p) ==> i <= p.1 <= v.len(),
        forall|sbv: SourceBundleFacetView|
            (sbv.source_files matches Some(fs) && wf_files(fs) && sbv.source_files_content
                is None) && (#[trigger] spec_write_sb(sbv)).is_prefix_of(v@.skip(i as int)) ==> (
            r matches Some(p) && p.0@ == sbv && p.1 == i + spec_write_sb(sbv).len()),
{
    let n1 = match expect_lit(v, i, "{\"source_files\":") {
        Some(n) => n,
        None => {
            proof {
                assert forall|sbv: SourceBundleFacetView|
                    (sbv.source_files matches Some(fs) && wf_files(fs) && sbv.source_files_content
                        is None) && (#[trigger] spec_write_sb(sbv)).is_prefix_of(
                        v@.skip(i as int),
                    ) implies false by {
                    lemma_sb_chain(v@, i as int, sbv);
                }
            }
            return None;
        },
    };
    let files = match parse_files(v, n1) {
        Some(q) => q,
        None => {
            proof {
                assert forall|sbv: SourceBundleFacetView|
                    (sbv.source_files matches Some(fs) && wf_files(fs) && sbv.source_files_content
                        is None) && (#[trigger] spec_write_sb(sbv)).is_prefix_of(
                        v@.skip(i as int),
                    ) implies false by {
                    lemma_sb_chain(v@, i as int, sbv);
                }
            }
            return None;
        },
    };
    let n2 = match expect_lit(v, files.1, ",\"facet_type\":") {
        Some(n) => n,
        None => {
            proof {
                assert forall|sbv: SourceBundleFacetView|
                    (sbv.source_files matches Some(fs) && wf_files(fs) && sbv.source_files_content
                        is None) && (#[trigger] spec_write_sb(sbv)).is_prefix_of(
                        v@.skip(i as int),
                    ) implies false by {
                    lemma_sb_chain(v@, i as int, sbv);
                }
            }
            return None;
        },
    };
    let t = match parse_type_name(v, n2) {
        Some(t) => t,
        None => {
            proof {
                assert forall|sbv: SourceBundleFacetView|
                    (sbv.source_files matches Some(fs) && wf_files(fs) && sbv.source_files_content
                        is None) && (#[trigger] spec_write_sb(sbv)).is_prefix_of(
                        v@.skip(i as int),
                    ) implies false by {
                    lemma_sb_chain(v@, i as int, sbv);
                }
            }
            return None;
        },
    };
    match expect_lit(v, t.1, "}") {
        Some(n3) => {
            let result = crate::facet::SourceBundleFacet {
                source_files: Some(files.0),
                facet_type: t.0,
                source_files_content: None,
            };
            proof {
                assert forall|sbv: SourceBundleFacetView|
                    (sbv.source_files matches Some(fs) && wf_files(fs) && sbv.source_files_content
                        is None) && (#[trigger] spec_write_sb(sbv)).is_prefix_of(
                        v@.skip(i as int),
                    ) implies (result@ == sbv && n3 == i + spec_write_sb(sbv).len()) by {
                    lemma_sb_chain(v@, i as int, sbv);
                }
            }
            Some((result, n3))
        },
        None => {
            proof {
                assert forall|sbv: SourceBundleFacetView|
                    (sbv.source_files matches Some(fs) && wf_files(fs) && sbv.source_files_content
                        is None) && (#[trigger] spec_write_sb(sbv)).is_prefix_of(
                        v@.skip(i as int),
                    ) implies false by {
                    lemma_sb_chain(v@, i as int, sbv);
                }
            }
            None
        },
    }
}

/// Unpacks the encoding of an API bundle facet.
proof fn lemma_ab_chain(s: Seq<char>, i: int, abv: APIBundleFacetView)
    requires
        0 <= i <= s.len(),
        spec_write_ab(abv).is_prefix_of(s.skip(i)),
    ensures
        "{\"apis\":"@.is_prefix_of(s.skip(i)),
        spec_write_apis(abv.apis).is_prefix_of(s.skip(i + "{\"apis\":"@.len())),
        ",\"facet_type\":"@.is_prefix_of(
            s.skip(i + "{\"apis\":"@.len() + spec_write_apis(abv.apis).len()),
        ),
        spec_quote(spec_facet_type_name(abv.facet_type)).is_prefix_of(
            s.skip(
                i + "{\"apis\":"@.len() + spec_write_apis(abv.apis).len()
                    + ",\"facet_type\":"@.len(),
            ),
        ),
        "}"@.is_prefix_of(
            s.skip(
                i + "{\"apis\":"@.len() + spec_write_apis(abv.apis).len()
                    + ",\"facet_type\":"@.len() + spec_quote(
                    spec_facet_type_name(abv.facet_type),
                ).len(),
            ),
        ),
        spec_write_ab(abv).len() == "{\"apis\":"@.len() + spec_write_apis(abv.apis).len()
            + ",\"facet_type\":"@.len() + spec_quote(spec_facet_type_name(abv.facet_type)).len()
            + "}"@.len(),
{
    assert(spec_write_ab(abv) =~= "{\"apis\":"@ + (spec_write_apis(abv.apis) + (
    ",\"facet_type\":"@ + (spec_quote(spec_facet_type_name(abv.facet_type)) + "}"@))));
    lemma_chop(
        "{\"apis\":"@,
        spec_write_apis(abv.apis) + (",\"facet_type\":"@ + (spec_quote(
            spec_facet_type_name(abv.facet_type),
        ) + "}"@)),
        s,
        i,
    );
    lemma_chop(
        spec_write_apis(abv.apis),
        ",\"facet_type\":"@ + (spec_quote(spec_facet_type_name(abv.facet_type)) + "}"@),
        s,
        i + "{\"apis\":"@.len(),
    );
    lemma_chop(
        ",\"facet_type\":"@,
        spec_quote(spec_facet_type_name(abv.facet_type)) + "}"@,
        s,
        i + "{\"apis\":"@.len() + spec_write_apis(abv.apis).len(),
    );
    lemma_chop(
        spec_quote(spec_facet_type_name(abv.facet_type)),
        "}"@,
        s,
        i + "{\"apis\":"@.len() + spec_write_apis(abv.apis).len() + ",\"facet_type\":"@.len(),
    );
}

/// Parses an API bundle facet.
fn parse_ab(v: &Vec<char>, i: usize) -> (r: Option<(crate::facet::APIBundleFacet, usize)>)
    requires
        i <= v.len(),
    ensures
        r matches Some(p) ==> i <= p.1 <= v.len(),
        forall|abv: APIBundleFacetView|
            (#[trigger] spec_write_ab(abv)).is_prefix_of(v@.skip(i as int)) ==> (r matches Some(p)
                && p.0@ == abv && p.1 == i + spec_write_ab(abv).len()),
{
    let n1 = match expect_lit(v, i, "{\"apis\":") {
        Some(n) => n,
        None => {
            proof {
                assert forall|abv: APIBundleFacetView|
                    (#[trigger] spec_write_ab(abv)).is_prefix_of(v@.skip(i as int)) implies
                false by {
                    lemma_ab_chain(v@, i as int, abv);
                }
            }
            return None;
        },
    };
    let apis = match parse_apis(v, n1) {
        Some(q) => q,
        None => {
            proof {
                assert forall|abv: APIBundleFacetView|
                    (#[trigger] spec_write_ab(abv)).is_prefix_of(v@.skip(i as int)) implies
                false by {
                    lemma_ab_chain(v@, i as int, abv);
                }
            }
            return None;
        },
    };
    let n2 = match expect_lit(v, apis.1, ",\"facet_type\":") {
        Some(n) => n,
        None => {
            proof {
                assert forall|abv: APIBundleFacetView|
                    (#[trigger] spec_write_ab(abv)).is_prefix_of(v@.skip(i as int)) implies
                false by {
                    lemma_ab_chain(v@, i as int, abv);
                }
            }
            return None;
        },
    };
    let t = match parse_type_name(v, n2) {
        Some(t) => t,
        None => {
            proof {
                assert forall|abv: APIBundleFacetView|
                    (#[trigger] spec_write_ab(abv)).is_prefix_of(v@.skip(i as int)) implies
                false by {
                    lemma_ab_chain(v@, i as int, abv);
                }
            }
            return None;
        },
    };
    match expect_lit(v, t.1, "}") {
        Some(n3) => {
            let result = crate::facet::APIBundleFacet { apis: apis.0, facet_type: t.0 };
            proof {
                assert forall|abv: APIBundleFacetView|
                    (#[trigger] spec_write_ab(abv)).is_prefix_of(v@.skip(i as int)) implies (
                result@ == abv && n3 == i + spec_write_ab(abv).len()) by {
                    lemma_ab_chain(v@, i as int, abv);
                }
            }
            Some((result, n3))
        },
        None => {
            proof {
                assert forall|abv: APIBundleFacetView|
                    (#[trigger] spec_write_ab(abv)).is_prefix_of(v@.skip(i as int)) implies
                false by {
                    lemma_ab_chain(v@, i as int, abv);
                }
            }
            None
        },
    }
}

/// When the input starts with both the `SourceBundle` tag and the encoding
/// of `fv`, `fv` is a source bundle.
proof fn lemma_facet_sb_head(s: Seq<char>, i: int, fv: InitializedFacetView)
    requires
        0 <= i <= s.len(),
        spec_write_facet(fv).is_prefix_of(s.skip(i)),
        "{\"SourceBundle\":"@.is_prefix_of(s.skip(i)),
    ensures
        fv is SourceBundle,
{
    reveal_strlit("{\"SourceBundle\":");
    reveal_strlit("{\"APIBundle\":");
    match fv {
        InitializedFacetView::APIBundle(abv) => {
            assert(spec_write_facet(fv) =~= "{\"APIBundle\":"@ + (spec_write_ab(abv) + "}"@));
            lemma_chop("{\"APIBundle\":"@, spec_write_ab(abv) + "}"@, s, i);
            lemma_pref_index("{\"SourceBundle\":"@, s.skip(i), 2);
            lemma_pref_index("{\"APIBundle\":"@, s.skip(i), 2);
        },
        InitializedFacetView::SourceBundle(sbv) => {},
    }
}

/// When the input starts with both the `APIBundle` tag and the encoding of
/// `fv`, `fv` is an API bundle.
proof fn lemma_facet_ab_head(s: Seq<char>, i: int, fv: InitializedFacetView)
    requires
        0 <= i <= s.len(),
        spec_write_facet(fv).is_prefix_of(s.skip(i)),
        "{\"APIBundle\":"@.is_prefix_of(s.skip(i)),
    ensures
        fv is APIBundle,
{
    reveal_strlit("{\"SourceBundle\":");
    reveal_strlit("{\"APIBundle\":");
    match fv {
        InitializedFacetView::SourceBundle(sbv) => {
            assert(spec_write_facet(fv) =~= "{\"SourceBundle\":"@ + (spec_write_sb(sbv) + "}"@));
            lemma_chop("{\"SourceBundle\":"@, spec_write_sb(sbv) + "}"@, s, i);
            lemma_pref_index("{\"SourceBundle\":"@, s.skip(i), 2);
            lemma_pref_index("{\"APIBundle\":"@, s.skip(i), 2);
        },
        InitializedFacetView::APIBundle(abv) => {},
    }
}

/// Parses the source bundle arm of a facet, after its tag.
#[verifier::rlimit(50)]
fn parse_facet_sb_arm(v: &Vec<char>, i: usize, n1: usize) -> (r: Option<(
    InitializedFacet,
    usize,
)>)
    requires
        i <= n1 <= v.len(),
        "{\"SourceBundle\":"@.is_prefix_of(v@.skip(i as int)),
        n1 == i + "{\"SourceBundle\":"@.len(),
    ensures
        r matches Some(p) ==> i <= p.1 <= v.len(),
        forall|fv: InitializedFacetView|
            wf_facet(fv) && (#[trigger] spec_write_facet(fv)).is_prefix_of(v@.skip(i as int)) ==> (
            r matches Some(p) && p.0@ == fv && p.1 == i + spec_write_facet(fv).len()),
{
    let sb = match parse_sb(v, n1) {
        Some(q) => q,
        None => {
            proof {
                assert forall|fv: InitializedFacetView|
                    wf_facet(fv) && (#[trigger] spec_write_facet(fv)).is_prefix_of(
                        v@.skip(i as int),
                    ) implies false by {
                    lemma_facet_sb_head(v@, i as int, fv);
                    let sbv = fv->SourceBundle_0;
                    assert(spec_write_facet(fv) =~= "{\"SourceBundle\":"@ + (spec_write_sb(sbv)
                        + "}"@));
                    lemma_chop("{\"SourceBundle\":"@, spec_write_sb(sbv) + "}"@, v@, i as int);
                    lemma_chop(spec_write_sb(sbv), "}"@, v@, n1 as int);
                }
            }
            return None;
        },
    };
    match expect_lit(v, sb.1, "}") {
        Some(n2) => {
            let result = InitializedFacet::SourceBundle(sb.0);
            proof {
                assert forall|fv: InitializedFacetView|
                    wf_facet(fv) && (#[trigger] spec_write_facet(fv)).is_prefix_of(
                        v@.skip(i as int),
                    ) implies (result@ == fv && n2 == i + spec_write_facet(fv).len()) by {
                    lemma_facet_sb_head(v@, i as int, fv);
                    let sbv = fv->SourceBundle_0;
                    assert(spec_write_facet(fv) =~= "{\"SourceBundle\":"@ + (spec_write_sb(sbv)
                        + "}"@));
                    lemma_chop("{\"SourceBundle\":"@, spec_write_sb(sbv) + "}"@, v@, i as int);
                    lemma_chop(spec_write_sb(sbv), "}"@, v@, n1 as int);
                }
            }
            Some((result, n2))
        },
        None => {
            proof {
                assert forall|fv: InitializedFacetView|
                    wf_facet(fv) && (#[trigger] spec_write_facet(fv)).is_prefix_of(
                        v@.skip(i as int),
                    ) implies false by {
                    lemma_facet_sb_head(v@, i as int, fv);
                    let sbv = fv->SourceBundle_0;
                    assert(spec_write_facet(fv) =~= "{\"SourceBundle\":"@ + (spec_write_sb(sbv)
                        + "}"@));
                    lemma_chop("{\"SourceBundle\":"@, spec_write_sb(sbv) + "}"@, v@, i as int);
                    lemma_chop(spec_write_sb(sbv), "}"@, v@, n1 as int);
                }
            }
            None
        },
    }
}

/// Parses the API bundle arm of a facet, after its tag.
#[verifier::rlimit(50)]
fn parse_facet_ab_arm(v: &Vec<char>, i: usize, n1: usize) -> (r: Option<(
    InitializedFacet,
    usize,
)>)
    requires
        i <= n1 <= v.len(),
        "{\"APIBundle\":"@.is_prefix_of(v@.skip(i as int)),
        n1 == i + "{\"APIBundle\":"@.len(),
    ensures
        r matches Some(p) ==> i <= p.1 <= v.len(),
        forall|fv: InitializedFacetView|
            wf_facet(fv) && (#[trigger] spec_write_facet(fv)).is_prefix_of(v@.skip(i as int)) ==> (
            r matches Some(p) && p.0@ == fv && p.1 == i + spec_write_facet(fv).len()),
{
    let ab = match parse_ab(v, n1) {
        Some(q) => q,
        None => {
            proof {
                assert forall|fv: InitializedFacetView|
                    wf_facet(fv) && (#[trigger] spec_write_facet(fv)).is_prefix_of(
                        v@.skip(i as int),
                    ) implies false by {
                    lemma_facet_ab_head(v@, i as int, fv);
                    let abv = fv->APIBundle_0;
                    assert(spec_write_facet(fv) =~= "{\"APIBundle\":"@ + (spec_write_ab(abv)
                        + "}"@));
                    lemma_chop("{\"APIBundle\":"@, spec_write_ab(abv) + "}"@, v@, i as int);
                    lemma_chop(spec_write_ab(abv), "}"@, v@, n1 as int);
                }
            }
            return None;
        },
    };
    match expect_lit(v, ab.1, "}") {
        Some(n2) => {
            let result = InitializedFacet::APIBundle(ab.0);
            proof {
                assert forall|fv: InitializedFacetView|
                    wf_facet(fv) && (#[trigger] spec_write_facet(fv)).is_prefix_of(
                        v@.skip(i as int),
                    ) implies (result@ == fv && n2 == i + spec_write_facet(fv).len()) by {
                    lemma_facet_ab_head(v@, i as int, fv);
                    let abv = fv->APIBundle_0;
                    assert(spec_write_facet(fv) =~= "{\"APIBundle\":"@ + (spec_write_ab(abv)
                        + "}"@));
                    lemma_chop("{\"APIBundle\":"@, spec_write_ab(abv) + "}"@, v@, i as int);
                    lemma_chop(spec_write_ab(abv), "}"@, v@, n1 as int);
                }
            }
            Some((result, n2))
        },
        None => {
            proof {
                assert forall|fv: InitializedFacetView|
                    wf_facet(fv) && (#[trigger] spec_write_facet(fv)).is_prefix_of(
                        v@.skip(i as int),
                    ) implies false by {
                    lemma_facet_ab_head(v@, i as int, fv);
                    let abv = fv->APIBundle_0;
                    assert(spec_write_facet(fv) =~= "{\"APIBundle\":"@ + (spec_write_ab(abv)
                        + "}"@));
                    lemma_chop("{\"APIBundle\":"@, spec_write_ab(abv) + "}"@, v@, i as int);
                    lemma_chop(spec_write_ab(abv), "}"@, v@, n1 as int);
                }
            }
            None
        },
    }
}

/// Parses an initialized facet.
#[verifier::rlimit(50)]
fn parse_facet(v: &Vec<char>, i: usize) -> (r: Option<(InitializedFacet, usize)>)
    requires
        i <= v.len(),
    ensures
        r matches Some(p) ==> i <= p.1 <= v.len(),
        forall|fv: InitializedFacetView|
            wf_facet(fv) && (#[trigger] spec_write_facet(fv)).is_prefix_of(v@.skip(i as int)) ==> (
            r matches Some(p) && p.0@ == fv && p.1 == i + spec_write_facet(fv).len()),
{
    match expect_lit(v, i, "{\"SourceBundle\":") {
        Some(n1) => parse_facet_sb_arm(v, i, n1),
        None => {
            match expect_lit(v, i, "{\"APIBundle\":") {
                Some(n1) => parse_facet_ab_arm(v, i, n1),
                None => {
                    proof {
                        assert forall|fv: InitializedFacetView|
                            wf_facet(fv) && (#[trigger] spec_write_facet(fv)).is_prefix_of(
                                v@.skip(i as int),
                            ) implies false by {
                            match fv {
                                InitializedFacetView::SourceBundle(sbv) => {
                                    assert(spec_write_facet(fv) =~= "{\"SourceBundle\":"@ + (
                                    spec_write_sb(sbv) + "}"@));
                                    lemma_chop(
                                        "{\"SourceBundle\":"@,
                                        spec_write_sb(sbv) + "}"@,
                                        v@,
                                        i as int,
                                    );
                                },
                                InitializedFacetView::APIBundle(abv) => {
                                    assert(spec_write_facet(fv) =~= "{\"APIBundle\":"@ + (
                                    spec_write_ab(abv) + "}"@));
                                    lemma_chop(
                                        "{\"APIBundle\":"@,
                                        spec_write_ab(abv) + "}"@,
                                        v@,
                                        i as int,
                                    );
                                },
                            }
                        }
                    }
                    None
                },
            }
        },
    }
}

/// Unpacks the encoding of one facet map entry.
proof fn lemma_entry_chain(s: Seq<char>, i: int, e: (FacetMapKeyView, InitializedFacetView))
    requires
        0 <= i <= s.len(),
        spec_write_entry(e).is_prefix_of(s.skip(i)),
    ensures
        spec_quote(spec_fmk_string(e.0)).is_prefix_of(s.skip(i)),
        ":"@.is_prefix_of(s.skip(i + spec_quote(spec_fmk_string(e.0)).len())),
        spec_write_facet(e.1).is_prefix_of(
            s.skip(i + spec_quote(spec_fmk_string(e.0)).len() + ":"@.len()),
        ),
        spec_write_entry(e).len() == spec_quote(spec_fmk_string(e.0)).len() + ":"@.len()
            + spec_write_facet(e.1).len(),
{
    assert(spec_write_entry(e) =~= spec_quote(spec_fmk_string(e.0)) + (":"@ + spec_write_facet(
        e.1,
    )));
    lemma_chop(spec_quote(spec_fmk_string(e.0)), ":"@ + spec_write_facet(e.1), s, i);
    lemma_chop(":"@, spec_write_facet(e.1), s, i + spec_quote(spec_fmk_string(e.0)).len());
}

/// Parses one facet map entry.
fn parse_entry(v: &Vec<char>, i: usize) -> (r: Option<((FacetMapKey, InitializedFacet), usize)>)
    requires
        i <= v.len(),
    ensures
        r matches Some(p) ==> i <= p.1 <= v.len(),
        forall|e: (FacetMapKeyView, InitializedFacetView)|
            wf_fmk(e.0) && wf_facet(e.1) && (#[trigger] spec_write_entry(e)).is_prefix_of(
                v@.skip(i as int),
            ) ==> (r matches Some(p) && p.0.0@ == e.0 && p.0.1@ == e.1 && p.1 == i
                + spec_write_entry(e).len()),
{
    let kq = match parse_quoted(v, i) {
        Some(q) => q,
        None => {
            proof {
                assert forall|e: (FacetMapKeyView, InitializedFacetView)|
                    wf_fmk(e.0) && wf_facet(e.1) && (#[trigger] spec_write_entry(e)).is_prefix_of(
                        v@.skip(i as int),
                    ) implies false by {
                    lemma_entry_chain(v@, i as int, e);
                }
            }
            return None;
        },
    };
    let k = match FacetMapKey::parse(kq.0.as_str()) {
        Some(k) => k,
        None => {
            proof {
                assert forall|e: (FacetMapKeyView, InitializedFacetView)|
                    wf_fmk(e.0) && wf_facet(e.1) && (#[trigger] spec_write_entry(e)).is_prefix_of(
                        v@.skip(i as int),
                    ) implies false by {
                    lemma_entry_chain(v@, i as int, e);
                }
            }
            return None;
        },
    };
    let n1 = match expect_lit(v, kq.1, ":") {
        Some(n) => n,
        None => {
            proof {
                assert forall|e: (FacetMapKeyView, InitializedFacetView)|
                    wf_fmk(e.0) && wf_facet(e.1) && (#[trigger] spec_write_entry(e)).is_prefix_of(
                        v@.skip(i as int),
                    ) implies false by {
                    lemma_entry_chain(v@, i as int, e);
                }
            }
            return None;
        },
    };
    let f = match parse_facet(v, n1) {
        Some(f) => f,
        None => {
            proof {
                assert forall|e: (FacetMapKeyView, InitializedFacetView)|
                    wf_fmk(e.0) && wf_facet(e.1) && (#[trigger] spec_write_entry(e)).is_prefix_of(
                        v@.skip(i as int),
                    ) implies false by {
                    lemma_entry_chain(v@, i as int, e);
                }
            }
            return None;
        },
    };
    let result = ((k, f.0), f.1);
    proof {
        assert forall|e: (FacetMapKeyView, InitializedFacetView)|
            wf_fmk(e.0) && wf_facet(e.1) && (#[trigger] spec_write_entry(e)).is_prefix_of(
                v@.skip(i as int),
            ) implies (result.0.0@ == e.0 && result.0.1@ == e.1 && result.1 == i
            + spec_write_entry(e).len()) by {
            lemma_entry_chain(v@, i as int, e);
        }
    }
    Some(result)
}

/// When more entries remain, the run at `cur` starts with a comma.
proof fn lemma_entries_more_unfold(
    s: Seq<char>,
    cur: int,
    esv: Seq<(FacetMapKeyView, InitializedFacetView)>,
    m: int,
)
    requires
        0 <= cur <= s.len(),
        0 <= m < esv.len(),
        (spec_write_entries_more(esv.skip(m)) + "}"@).is_prefix_of(s.skip(cur)),
    ensures
        ","@.is_prefix_of(s.skip(cur)),
        (spec_write_entry(esv[m]) + (spec_write_entries_more(esv.skip(m + 1))
            + "}"@)).is_prefix_of(s.skip(cur + 1)),
{
    reveal_strlit(",");
    assert(esv.skip(m)[0] == esv[m]);
    assert(esv.skip(m).skip(1) =~= esv.skip(m + 1));
    assert((spec_write_entries_more(esv.skip(m)) + "}"@) =~= ","@ + (spec_write_entry(esv[m]) + (
    spec_write_entries_more(esv.skip(m + 1)) + "}"@)));
    lemma_chop(
        ","@,
        spec_write_entry(esv[m]) + (spec_write_entries_more(esv.skip(m + 1)) + "}"@),
        s,
        cur,
    );
}

/// One step of the facet map.
proof fn lemma_entries_step(
    s: Seq<char>,
    cur: int,
    esv: Seq<(FacetMapKeyView, InitializedFacetView)>,
    m: int,
)
    requires
        0 <= cur <= s.len(),
        1 <= m <= esv.len(),
        ","@.is_prefix_of(s.skip(cur)),
        (spec_write_entries_more(esv.skip(m)) + "}"@).is_prefix_of(s.skip(cur)),
    ensures
        m < esv.len(),
        spec_write_entry(esv[m]).is_prefix_of(s.skip(cur + 1)),
        (spec_write_entries_more(esv.skip(m + 1)) + "}"@).is_prefix_of(
            s.skip(cur + 1 + spec_write_entry(esv[m]).len()),
        ),
        spec_write_entries_more(esv.skip(m)).len() == 1 + spec_write_entry(esv[m]).len()
            + spec_write_entries_more(esv.skip(m + 1)).len(),
{
    reveal_strlit(",");
    reveal_strlit("}");
    if m == esv.len() {
        assert(spec_write_entries_more(esv.skip(m)) =~= Seq::<char>::empty());
        assert((spec_write_entries_more(esv.skip(m)) + "}"@) =~= "}"@);
        lemma_pref_index("}"@, s.skip(cur), 0);
        lemma_pref_index(","@, s.skip(cur), 0);
    }
    lemma_entries_more_unfold(s, cur, esv, m);
    lemma_chop(
        spec_write_entry(esv[m]),
        spec_write_entries_more(esv.skip(m + 1)) + "}"@,
        s,
        cur + 1,
    );
    assert(esv.skip(m).skip(1) =~= esv.skip(m + 1));
}

/// Parses the facet map.
#[verifier::rlimit(100)]
#[verifier::loop_isolation(false)]
fn parse_entries(v: &Vec<char>, i: usize) -> (r: Option<(
    Vec<(FacetMapKey, InitializedFacet)>,
    usize,
)>)
    requires
        i <= v.len(),
    ensures
        r matches Some(p) ==> i <= p.1 <= v.len(),
        forall|esv: Seq<(FacetMapKeyView, InitializedFacetView)>|
            wf_entries(esv) && (#[trigger] spec_write_entries(esv)).is_prefix_of(
                v@.skip(i as int),
            ) ==> (r matches Some(p) && views_of_facets(p.0@) == esv && p.1 == i
                + spec_write_entries(esv).len()),
{
    proof {
        reveal_strlit("{");
        reveal_strlit("}");
        reveal_strlit(",");
    }
    let n1 = match expect_lit(v, i, "{") {
        Some(n) => n,
        None => {
            proof {
                assert forall|esv: Seq<(FacetMapKeyView, InitializedFacetView)>|
                    wf_entries(esv) && (#[trigger] spec_write_entries(esv)).is_prefix_of(
                        v@.skip(i as int),
                    ) implies false by {
                    assert(spec_write_entries(esv) =~= "{"@ + (spec_write_entries_items(esv)
                        + "}"@));
                    lemma_chop("{"@, spec_write_entries_items(esv) + "}"@, v@, i as int);
                }
            }
            return None;
        },
    };
    proof {
        assert forall|esv: Seq<(FacetMapKeyView, InitializedFacetView)>|
            wf_entries(esv) && (#[trigger] spec_write_entries(esv)).is_prefix_of(
                v@.skip(i as int),
            ) implies (spec_write_entries_items(esv) + "}"@).is_prefix_of(v@.skip(n1 as int)) by {
            assert(spec_write_entries(esv) =~= "{"@ + (spec_write_entries_items(esv) + "}"@));
            lemma_chop("{"@, spec_write_entries_items(esv) + "}"@, v@, i as int);
        }
    }
    match expect_lit(v, n1, "}") {
        Some(n2) => {
            let out: Vec<(FacetMapKey, InitializedFacet)> = Vec::new();
            proof {
                assert forall|esv: Seq<(FacetMapKeyView, InitializedFacetView)>|
                    wf_entries(esv) && (#[trigger] spec_write_entries(esv)).is_prefix_of(
                        v@.skip(i as int),
                    ) implies (views_of_facets(out@) == esv && n2 == i + spec_write_entries(
                    esv,
                ).len()) by {
                    if esv.len() > 0 {
                        lemma_chop(
                            spec_write_entry(esv[0]),
                            spec_write_entries_more(esv.skip(1)) + "}"@,
                            v@,
                            n1 as int,
                        );
                        lemma_entry_chain(v@, n1 as int, esv[0]);
                        lemma_pref_index(
                            spec_quote(spec_fmk_string(esv[0].0)),
                            v@.skip(n1 as int),
                            0,
                        );
                        lemma_pref_index("}"@, v@.skip(n1 as int), 0);
                    }
                    assert(views_of_facets(out@) =~= esv);
                }
            }
            return Some((out, n2));
        },
        None => {
        },
    }
    let first = match parse_entry(v, n1) {
        Some(q) => q,
        None => {
            proof {
                assert forall|esv: Seq<(FacetMapKeyView, InitializedFacetView)>|
                    wf_entries(esv) && (#[trigger] spec_write_entries(esv)).is_prefix_of(
                        v@.skip(i as int),
                    ) implies false by {
                    if esv.len() == 0 {
                        assert(spec_write_entries_items(esv) =~= Seq::<char>::empty());
                        assert((spec_write_entries_items(esv) + "}"@) =~= "}"@);
                    } else {
                        assert((spec_write_entries_items(esv) + "}"@) =~= spec_write_entry(esv[0])
                            + (spec_write_entries_more(esv.skip(1)) + "}"@));
                        lemma_chop(
                            spec_write_entry(esv[0]),
                            spec_write_entries_more(esv.skip(1)) + "}"@,
                            v@,
                            n1 as int,
                        );
                    }
                }
            }
            return None;
        },
    };
    let mut out: Vec<(FacetMapKey, InitializedFacet)> = Vec::new();
    out.push(first.0);
    let mut cur: usize = first.1;
    proof {
        assert forall|esv: Seq<(FacetMapKeyView, InitializedFacetView)>|
            wf_entries(esv) && (#[trigger] spec_write_entries(esv)).is_prefix_of(
                v@.skip(i as int),
            ) implies {
            &&& out@.len() <= esv.len()
            &&& views_of_facets(out@) == esv.take(out@.len() as int)
            &&& (spec_write_entries_more(esv.skip(out@.len() as int)) + "}"@).is_prefix_of(
                v@.skip(cur as int),
            )
            &&& cur + spec_write_entries_more(esv.skip(out@.len() as int)).len() + 1 == i
                + spec_write_entries(esv).len()
        } by {
            if esv.len() == 0 {
                assert(spec_write_entries_items(esv) =~= Seq::<char>::empty());
                assert((spec_write_entries_items(esv) + "}"@) =~= "}"@);
            } else {
                assert((spec_write_entries_items(esv) + "}"@) =~= spec_write_entry(esv[0]) + (
                spec_write_entries_more(esv.skip(1)) + "}"@));
                lemma_chop(
                    spec_write_entry(esv[0]),
                    spec_write_entries_more(esv.skip(1)) + "}"@,
                    v@,
                    n1 as int,
                );
                assert(views_of_facets(out@) =~= esv.take(1));
            }
        }
    }
    loop
        invariant
            i < cur <= v.len(),
            out.len() >= 1,
            forall|esv: Seq<(FacetMapKeyView, InitializedFacetView)>|
                wf_entries(esv) && (#[trigger] spec_write_entries(esv)).is_prefix_of(
                    v@.skip(i as int),
                ) ==> {
                    &&& out@.len() <= esv.len()
                    &&& views_of_facets(out@) == esv.take(out@.len() as int)
                    &&& (spec_write_entries_more(esv.skip(out@.len() as int))
                        + "}"@).is_prefix_of(v@.skip(cur as int))
                    &&& cur + spec_write_entries_more(esv.skip(out@.len() as int)).len() + 1 == i
                        + spec_write_entries(esv).len()
                },
        decreases v.len() - cur,
    {
        match expect_lit(v, cur, ",") {
            Some(c2) => {
                let nxt = match parse_entry(v, c2) {
                    Some(q) => q,
                    None => {
                        proof {
                            assert forall|esv: Seq<(FacetMapKeyView, InitializedFacetView)>|
                                wf_entries(esv) && (
                                #[trigger] spec_write_entries(esv)).is_prefix_of(
                                    v@.skip(i as int),
                                ) implies false by {
                                lemma_entries_step(v@, cur as int, esv, out@.len() as int);
                            }
                        }
                        return None;
                    },
                };
                let ghost m = out@.len() as int;
                out.push(nxt.0);
                let ghost oldcur = cur as int;
                cur = nxt.1;
                proof {
                    assert forall|esv: Seq<(FacetMapKeyView, InitializedFacetView)>|
                        wf_entries(esv) && (#[trigger] spec_write_entries(esv)).is_prefix_of(
                            v@.skip(i as int),
                        ) implies {
                        &&& out@.len() <= esv.len()
                        &&& views_of_facets(out@) == esv.take(out@.len() as int)
                        &&& (spec_write_entries_more(esv.skip(out@.len() as int))
                            + "}"@).is_prefix_of(v@.skip(cur as int))
                        &&& cur + spec_write_entries_more(esv.skip(out@.len() as int)).len() + 1
                            == i + spec_write_entries(esv).len()
                    } by {
                        lemma_entries_step(v@, oldcur, esv, m);
                        assert(views_of_facets(out@) =~= esv.take(m + 1));
                    }
                }
            },
            None => {
                match expect_lit(v, cur, "}") {
                    Some(c2) => {
                        proof {
                            assert forall|esv: Seq<(FacetMapKeyView, InitializedFacetView)>|
                                wf_entries(esv) && (
                                #[trigger] spec_write_entries(esv)).is_prefix_of(
                                    v@.skip(i as int),
                                ) implies (views_of_facets(out@) == esv && c2 == i
                                + spec_write_entries(esv).len()) by {
                                let m = out@.len() as int;
                                if m < esv.len() {
                                    lemma_entries_more_unfold(v@, cur as int, esv, m);
                                }
                                assert(m == esv.len());
                                assert(spec_write_entries_more(esv.skip(m)) =~= Seq::<
                                    char,
                                >::empty());
                                assert(views_of_facets(out@) =~= esv);
                            }
                        }
                        return Some((out, c2));
                    },
                    None => {
                        proof {
                            assert forall|esv: Seq<(FacetMapKeyView, InitializedFacetView)>|
                                wf_entries(esv) && (
                                #[trigger] spec_write_entries(esv)).is_prefix_of(
                                    v@.skip(i as int),
                                ) implies false by {
                                let m = out@.len() as int;
                                if m < esv.len() {
                                    lemma_entries_more_unfold(v@, cur as int, esv, m);
                                } else {
                                    assert(spec_write_entries_more(esv.skip(m)) =~= Seq::<
                                        char,
                                    >::empty());
                                    assert((spec_write_entries_more(esv.skip(m)) + "}"@)
                                        =~= "}"@);
                                }
                            }
                        }
                        return None;
                    },
                }
            },
        }
    }
}

/// Unpacks the encoding of a whole project manifest.
#[verifier::rlimit(100)]
#[verifier::spinoff_prover]
proof fn lemma_project_chain(s: Seq<char>, i: int, pv: InitializedProjectView)
    requires
        0 <= i <= s.len(),
        spec_write_project(pv).is_prefix_of(s.skip(i)),
    ensures
        "{\"repo\":"@.is_prefix_of(s.skip(i)),
        spec_write_repo(pv.repo).is_prefix_of(s.skip(i + "{\"repo\":"@.len())),
        ",\"ecosystem\":"@.is_prefix_of(
            s.skip(i + "{\"repo\":"@.len() + spec_write_repo(pv.repo).len()),
        ),
        spec_write_eco(pv.ecosystem).is_prefix_of(
            s.skip(
                i + "{\"repo\":"@.len() + spec_write_repo(pv.repo).len()
                    + ",\"ecosystem\":"@.len(),
            ),
        ),
        ",\"source\":"@.is_prefix_of(
            s.skip(
                i + "{\"repo\":"@.len() + spec_write_repo(pv.repo).len()
                    + ",\"ecosystem\":"@.len() + spec_write_eco(pv.ecosystem).len(),
            ),
        ),
        spec_write_source(pv.source).is_prefix_of(
            s.skip(
                i + "{\"repo\":"@.len() + spec_write_repo(pv.repo).len()
                    + ",\"ecosystem\":"@.len() + spec_write_eco(pv.ecosystem).len()
                    + ",\"source\":"@.len(),
            ),
        ),
        ",\"facets\":"@.is_prefix_of(
            s.skip(
                i + "{\"repo\":"@.len() + spec_write_repo(pv.repo).len()
                    + ",\"ecosystem\":"@.len() + spec_write_eco(pv.ecosystem).len()
                    + ",\"source\":"@.len() + spec_write_source(pv.source).len(),
            ),
        ),
        spec_write_entries(pv.facets).is_prefix_of(
            s.skip(
                i + "{\"repo\":"@.len() + spec_write_repo(pv.repo).len()
                    + ",\"ecosystem\":"@.len() + spec_write_eco(pv.ecosystem).len()
                    + ",\"source\":"@.len() + spec_write_source(pv.source).len()
                    + ",\"facets\":"@.len(),
            ),
        ),
        "}"@.is_prefix_of(
            s.skip(
                i + "{\"repo\":"@.len() + spec_write_repo(pv.repo).len()
                    + ",\"ecosystem\":"@.len() + spec_write_eco(pv.ecosystem).len()
                    + ",\"source\":"@.len() + spec_write_source(pv.source).len()
                    + ",\"facets\":"@.len() + spec_write_entries(pv.facets).len(),
            ),
        ),
        spec_write_project(pv).len() == "{\"repo\":"@.len() + spec_write_repo(pv.repo).len()
            + ",\"ecosystem\":"@.len() + spec_write_eco(pv.ecosystem).len()
            + ",\"source\":"@.len() + spec_write_source(pv.source).len() + ",\"facets\":"@.len()
            + spec_write_entries(pv.facets).len() + "}"@.len(),
{
    assert(spec_write_project(pv) =~= "{\"repo\":"@ + (spec_write_repo(pv.repo) + (
    ",\"ecosystem\":"@ + (spec_write_eco(pv.ecosystem) + (",\"source\":"@ + (spec_write_source(
        pv.source,
    ) + (",\"facets\":"@ + (spec_write_entries(pv.facets) + "}"@))))))));
    lemma_chop(
        "{\"repo\":"@,
        spec_write_repo(pv.repo) + (",\"ecosystem\":"@ + (spec_write_eco(pv.ecosystem) + (
        ",\"source\":"@ + (spec_write_source(pv.source) + (",\"facets\":"@ + (spec_write_entries(
            pv.facets,
        ) + "}"@)))))),
        s,
        i,
    );
    let o1 = i + "{\"repo\":"@.len();
    lemma_chop(
        spec_write_repo(pv.repo),
        ",\"ecosystem\":"@ + (spec_write_eco(pv.ecosystem) + (",\"source\":"@ + (
        spec_write_source(pv.source) + (",\"facets\":"@ + (spec_write_entries(pv.facets)
            + "}"@))))),
        s,
        o1,
    );
    let o2 = o1 + spec_write_repo(pv.repo).len();
    lemma_chop(
        ",\"ecosystem\":"@,
        spec_write_eco(pv.ecosystem) + (",\"source\":"@ + (spec_write_source(pv.source) + (
        ",\"facets\":"@ + (spec_write_entries(pv.facets) + "}"@)))),
        s,
        o2,
    );
    let o3 = o2 + ",\"ecosystem\":"@.len();
    lemma_chop(
        spec_write_eco(pv.ecosystem),
        ",\"source\":"@ + (spec_write_source(pv.source) + (",\"facets\":"@ + (spec_write_entries(
            pv.facets,
        ) + "}"@))),
        s,
        o3,
    );
    let o4 = o3 + spec_write_eco(pv.ecosystem).len();
    lemma_chop(
        ",\"source\":"@,
        spec_write_source(pv.source) + (",\"facets\":"@ + (spec_write_entries(pv.facets) + "}"@)),
        s,
        o4,
    );
    let o5 = o4 + ",\"source\":"@.len();
    lemma_chop(
        spec_write_source(pv.source),
        ",\"facets\":"@ + (spec_write_entries(pv.facets) + "}"@),
        s,
        o5,
    );
    let o6 = o5 + spec_write_source(pv.source).len();
    lemma_chop(",\"facets\":"@, spec_write_entries(pv.facets) + "}"@, s, o6);
    let o7 = o6 + ",\"facets\":"@.len();
    lemma_chop(spec_write_entries(pv.facets), "}"@, s, o7);
}

/// Parses a whole project manifest starting at `i`.
#[verifier::rlimit(50)]
fn parse_project(v: &Vec<char>, i: usize) -> (r: Option<(InitializedProject, usize)>)
    requires
        i <= v.len(),
    ensures
        r matches Some(p) ==> i <= p.1 <= v.len(),
        forall|pv: InitializedProjectView|
            wf_project(pv) && (#[trigger] spec_write_project(pv)).is_prefix_of(
                v@.skip(i as int),
            ) ==> (r matches Some(p) && p.0@ == pv && p.1 == i + spec_write_project(pv).len()),
{
    let n1 = match expect_lit(v, i, "{\"repo\":") {
        Some(n) => n,
        None => {
            proof {
                assert forall|pv: InitializedProjectView|
                    wf_project(pv) && (#[trigger] spec_write_project(pv)).is_prefix_of(
                        v@.skip(i as int),
                    ) implies false by {
                    lemma_project_chain(v@, i as int, pv);
                }
            }
            return None;
        },
    };
    let repo = match parse_repo(v, n1) {
        Some(q) => q,
        None => {
            proof {
                assert forall|pv: InitializedProjectView|
                    wf_project(pv) && (#[trigger] spec_write_project(pv)).is_prefix_of(
                        v@.skip(i as int),
                    ) implies false by {
                    lemma_project_chain(v@, i as int, pv);
                }
            }
            return None;
        },
    };
    let n2 = match expect_lit(v, repo.1, ",\"ecosystem\":") {
        Some(n) => n,
        None => {
            proof {
                assert forall|pv: InitializedProjectView|
                    wf_project(pv) && (#[trigger] spec_write_project(pv)).is_prefix_of(
                        v@.skip(i as int),
                    ) implies false by {
                    lemma_project_chain(v@, i as int, pv);
                }
            }
            return None;
        },
    };
    let eco = match parse_eco(v, n2) {
        Some(q) => q,
        None => {
            proof {
                assert forall|pv: InitializedProjectView|
                    wf_project(pv) && (#[trigger] spec_write_project(pv)).is_prefix_of(
                        v@.skip(i as int),
                    ) implies false by {
                    lemma_project_chain(v@, i as int, pv);
                }
            }
            return None;
        },
    };
    let n3 = match expect_lit(v, eco.1, ",\"source\":") {
        Some(n) => n,
        None => {
            proof {
                assert forall|pv: InitializedProjectView|
                    wf_project(pv) && (#[trigger] spec_write_project(pv)).is_prefix_of(
                        v@.skip(i as int),
                    ) implies false by {
                    lemma_project_chain(v@, i as int, pv);
                }
            }
            return None;
        },
    };
    let source = match parse_source(v, n3) {
        Some(q) => q,
        None => {
            proof {
                assert forall|pv: InitializedProjectView|
                    wf_project(pv) && (#[trigger] spec_write_project(pv)).is_prefix_of(
                        v@.skip(i as int),
                    ) implies false by {
                    lemma_project_chain(v@, i as int, pv);
                }
            }
            return None;
        },
    };
    let n4 = match expect_lit(v, source.1, ",\"facets\":") {
        Some(n) => n,
        None => {
            proof {
                assert forall|pv: InitializedProjectView|
                    wf_project(pv) && (#[trigger] spec_write_project(pv)).is_prefix_of(
                        v@.skip(i as int),
                    ) implies false by {
                    lemma_project_chain(v@, i as int, pv);
                }
            }
            return None;
        },
    };
    let facets = match parse_entries(v, n4) {
        Some(q) => q,
        None => {
            proof {
                assert forall|pv: InitializedProjectView|
                    wf_project(pv) && (#[trigger] spec_write_project(pv)).is_prefix_of(
                        v@.skip(i as int),
                    ) implies false by {
                    lemma_project_chain(v@, i as int, pv);
                }
            }
            return None;
        },
    };
    match expect_lit(v, facets.1, "}") {
        Some(n5) => {
            let result = InitializedProject {
                repo: repo.0,
                ecosystem: eco.0,
                source: source.0,
                facets: facets.0,
            };
            proof {
                assert forall|pv: InitializedProjectView|
                    wf_project(pv) && (#[trigger] spec_write_project(pv)).is_prefix_of(
                        v@.skip(i as int),
                    ) implies (result@ == pv && n5 == i + spec_write_project(pv).len()) by {
                    lemma_project_chain(v@, i as int, pv);
                }
            }
            Some((result, n5))
        },
        None => {
            proof {
                assert forall|pv: InitializedProjectView|
                    wf_project(pv) && (#[trigger] spec_write_project(pv)).is_prefix_of(
                        v@.skip(i as int),
                    ) implies false by {
                    lemma_project_chain(v@, i as int, pv);
                }
            }
            None
        },
    }
}

/// Deserializes a `.skootrs` manifest.  For every well-formed project,
/// deserializing its serialized form yields exactly that project back:
/// together with `serialize_project`, this is the manifest round trip.
/// Conversely, whatever is returned, the input was exactly its canonical
/// encoding; a failure is always a decoding error.
pub fn deserialize_project(s: &str) -> (r: Result<InitializedProject, SkootError>)
    ensures
        forall|pv: InitializedProjectView|
            wf_project(pv) && s@ == #[trigger] spec_write_project(pv) ==> (r matches Ok(p) && p@
                == pv),
        r matches Ok(p) ==> wf_project(p@) && s@ == spec_write_project(p@),
        r matches Err(e) ==> e is Decoding,
{
    let v = str_to_chars(s);
    proof {
        assert(v@.skip(0) =~= v@);
    }
    match parse_project(&v, 0) {
        Some((p, n)) => {
            if n == v.len() {
                if is_serializable_project(&p) {
                    let rendered = serialize_project(&p);
                    if crate::strutil::str_eq(rendered.as_str(), s) {
                        Ok(p)
                    } else {
                        proof {
                            assert forall|pv: InitializedProjectView|
                                wf_project(pv) && s@ == spec_write_project(pv) implies false by {
                                assert(spec_write_project(pv).is_prefix_of(v@.skip(0)));
                            }
                        }
                        Err(
                            SkootError::Decoding(
                                "manifest is not in canonical form".to_owned(),
                            ),
                        )
                    }
                } else {
                    proof {
                        assert forall|pv: InitializedProjectView|
                            wf_project(pv) && s@ == spec_write_project(pv) implies false by {
                            assert(spec_write_project(pv).is_prefix_of(v@.skip(0)));
                        }
                    }
                    Err(SkootError::Decoding("manifest holds an uncarriable facet".to_owned()))
                }
            } else {
                proof {
                    assert forall|pv: InitializedProjectView|
                        wf_project(pv) && s@ == spec_write_project(pv) implies false by {
                        assert(spec_write_project(pv).is_prefix_of(v@.skip(0)));
                    }
                }
                Err(SkootError::Decoding("trailing characters in manifest".to_owned()))
            }
        },
        None => {
            proof {
                assert forall|pv: InitializedProjectView|
                    wf_project(pv) && s@ == spec_write_project(pv) implies false by {
                    assert(spec_write_project(pv).is_prefix_of(v@.skip(0)));
                }
            }
            Err(SkootError::Decoding("malformed manifest".to_owned()))
        },
    }
}

/// The manifest round trip, as an executable witness checked by the
/// verifier: serializing any well-formed project and deserializing the
/// result always succeeds and returns a structurally equal project.
pub fn manifest_round_trip(p: &InitializedProject) -> (r: Option<InitializedProject>)
    requires
        wf_project(p@),
    ensures
        r matches Some(q) && q@ == p@,
{
    let text = serialize_project(p);
    match deserialize_project(text.as_str()) {
        Ok(q) => Some(q),
        Err(_) => None,
    }
}

/// Whether a string is free of colons, executably.
fn colon_free_str(s: &str) -> (r: bool)
    ensures
        r == crate::facet::colon_free(s@),
{
    let cs = str_to_chars(s);
    let i = crate::strutil::find_char(&cs, 0, ':');
    if i == cs.len() {
        true
    } else {
        assert(!crate::facet::colon_free(s@));
        false
    }
}

/// Whether the manifest can carry this project: every facet key is
/// well formed and every facet holds its persisted records.  Callers
/// outside the verifier test this before serializing.
#[verifier::loop_isolation(false)]
pub fn is_serializable_project(p: &InitializedProject) -> (r: bool)
    ensures
        r == wf_project(p@),
{
    let mut k: usize = 0;
    while k < p.facets.len()
        invariant
            k <= p.facets@.len(),
            forall|j: int|
                0 <= j < k ==> wf_fmk(#[trigger] p@.facets[j].0) && wf_facet(p@.facets[j].1),
        decreases p.facets.len() - k,
    {
        let entry = &p.facets[k];
        match &entry.0 {
            FacetMapKey::Name(s) => {
                if crate::strutil::contains_str(s.as_str(), ": ") {
                    proof {
                        assert(!wf_fmk(p@.facets[k as int].0));
                    }
                    return false;
                }
            },
            FacetMapKey::Type(_) => {
            },
        }
        match &entry.1 {
            InitializedFacet::SourceBundle(sb) => {
                if sb.source_files_content.is_some() {
                    proof {
                        assert(!wf_facet(p@.facets[k as int].1));
                    }
                    return false;
                }
                match &sb.source_files {
                    Some(files) => {
                        let mut j: usize = 0;
                        while j < files.len()
                            invariant
                                j <= files@.len(),
                                forall|m: int|
                                    0 <= m < j ==> wf_source_file(
                                        #[trigger] views_of_files(files@)[m],
                                    ),
                            decreases files.len() - j,
                        {
                            let f = &files[j];
                            let fine = colon_free_str(f.name.as_str()) && colon_free_str(
                                f.path.as_str(),
                            ) && colon_free_str(f.hash.as_str());
                            if !fine {
                                proof {
                                    assert(!wf_source_file(views_of_files(files@)[j as int]));
                                    assert(!wf_facet(p@.facets[k as int].1));
                                }
                                return false;
                            }
                            j = j + 1;
                        }
                    },
                    None => {
                        proof {
                            assert(!wf_facet(p@.facets[k as int].1));
                        }
                        return false;
                    },
                }
            },
            InitializedFacet::APIBundle(_) => {
            },
        }
        proof {
            assert(p@.facets[k as int] == (p.facets@[k as int].0@, p.facets@[k as int].1@));
            assert(wf_fmk(p@.facets[k as int].0));
            assert(wf_facet(p@.facets[k as int].1));
        }
        k = k + 1;
    }
    proof {
        assert(p@.facets.len() == p.facets@.len());
    }
    true
}

} // verus!
