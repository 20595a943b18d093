//! Reconciles image defaults with container-config overrides into the
//! final process command line and environment.
use vstd::prelude::*;
use vstd::string::StrSliceExecFns;
use vstd::string::StringExecFns;

use crate::model::ContainerConfig;
use crate::model::Image;
use crate::{has_no, lemma_index_of, spec_index_of};

verus! {

/// `a` when present, else `b`.
pub open spec fn opt_or(a: Option<Seq<Seq<char>>>, b: Option<Seq<Seq<char>>>) -> Option<
    Seq<Seq<char>>,
> {
    if a is Some {
        a
    } else {
        b
    }
}

/// The contained sequence, or the empty sequence.
pub open spec fn opt_seq(a: Option<Seq<Seq<char>>>) -> Seq<Seq<char>> {
    match a {
        Some(s) => s,
        None => Seq::empty(),
    }
}

/// The merged command line: effective entrypoint (config override, else
/// image default) followed by the effective base command (same precedence),
/// a lone `sh` when both are absent, and the extra arguments last.
pub open spec fn spec_cmd(
    image: Image,
    config: ContainerConfig,
    args: Seq<Seq<char>>,
) -> Seq<Seq<char>> {
    let base = opt_seq(opt_or(config.spec_entrypoint(), image.spec_entrypoint())) + opt_seq(
        opt_or(config.spec_cmd(), image.spec_cmd()),
    );
    (if base.len() == 0 {
        seq!["sh"@]
    } else {
        base
    }) + args
}

/// Appends a copy of every element of `src` to `dst`.
fn push_all(dst: &mut Vec<String>, src: &Vec<String>)
    ensures
        final(dst).deep_view() == old(dst).deep_view() + src.deep_view(),
{
    let ghost orig = old(dst).deep_view();
    let mut i: usize = 0;
    while i < src.len()
        invariant
            i <= src.len(),
            dst.deep_view() =~= orig + src.deep_view().take(i as int),
        decreases src.len() - i,
    {
        let ghost prev = dst.deep_view();
        let s = src[i].clone();
        dst.push(s);
        proof {
            assert(dst.deep_view() =~= prev.push(src.deep_view()[i as int]));
            assert(src.deep_view().take((i + 1) as int) =~= src.deep_view().take(i as int).push(
                src.deep_view()[i as int],
            ));
        }
        i = i + 1;
    }
    proof {
        assert(src.deep_view().take(src.len() as int) =~= src.deep_view());
    }
}

/// Merges the image's default entrypoint and command with the
/// configuration's overrides and appends the caller's extra arguments.
pub fn build_cmd(image: &Image, config: &ContainerConfig, arguments: Vec<String>) -> (r: Vec<
    String,
>)
    ensures
        r.deep_view() =~~= spec_cmd(*image, *config, arguments.deep_view()),
{
    let mut actual: Vec<String> = Vec::new();
    match &config.entrypoint {
        Some(e) => push_all(&mut actual, e),
        None => {
            match &image.config {
                Some(c) => match &c.entrypoint {
                    Some(e) => push_all(&mut actual, e),
                    None => {},
                },
                None => {},
            }
        },
    }
    match &config.cmd {
        Some(c) => push_all(&mut actual, c),
        None => {
            match &image.config {
                Some(ic) => match &ic.cmd {
                    Some(c) => push_all(&mut actual, c),
                    None => {},
                },
                None => {},
            }
        },
    }
    if actual.len() == 0 {
        let ghost prev = actual.deep_view();
        actual.push("sh".to_owned());
        proof {
            assert(actual.deep_view() =~= prev.push("sh"@));
        }
    }
    push_all(&mut actual, &arguments);
    actual
}

/// Unique keys: no two entries share a first component.
pub open spec fn spec_unique_keys(ps: Seq<(Seq<char>, Seq<char>)>) -> bool {
    forall|i: int, j: int| 0 <= i < j < ps.len() ==> ps[i].0 != ps[j].0
}

/// The mapping a sequence of key/value pairs denotes; a later entry for the
/// same key wins.
pub open spec fn spec_map_of(ps: Seq<(Seq<char>, Seq<char>)>) -> Map<Seq<char>, Seq<char>>
    decreases ps.len(),
{
    if ps.len() == 0 {
        Map::empty()
    } else {
        spec_map_of(ps.drop_last()).insert(ps.last().0, ps.last().1)
    }
}

/// One more entry binds its key on top of the mapping so far.
pub proof fn lemma_map_of_push(ps: Seq<(Seq<char>, Seq<char>)>, p: (Seq<char>, Seq<char>))
    ensures
        spec_map_of(ps.push(p)) == spec_map_of(ps).insert(p.0, p.1),
{
    assert(ps.push(p).drop_last() =~= ps);
    assert(ps.push(p).last() == p);
}

/// A key none of the entries carries is not in the denoted mapping.
pub proof fn lemma_map_of_absent(ps: Seq<(Seq<char>, Seq<char>)>, k: Seq<char>)
    requires
        forall|i: int| 0 <= i < ps.len() ==> ps[i].0 != k,
    ensures
        !spec_map_of(ps).contains_key(k),
    decreases ps.len(),
{
    if ps.len() > 0 {
        lemma_map_of_absent(ps.drop_last(), k);
    }
}

/// With unique keys, the denoted mapping sends an entry's key to that
/// entry's value.
pub proof fn lemma_map_of_index(ps: Seq<(Seq<char>, Seq<char>)>, i: int)
    requires
        spec_unique_keys(ps),
        0 <= i < ps.len(),
    ensures
        spec_map_of(ps).contains_key(ps[i].0),
        spec_map_of(ps)[ps[i].0] == ps[i].1,
    decreases ps.len(),
{
    if i < ps.len() - 1 {
        lemma_map_of_index(ps.drop_last(), i);
    }
}

/// With unique keys, removing the entry that carries `k` removes exactly
/// `k` from the denoted mapping.
proof fn lemma_map_of_remove(ps: Seq<(Seq<char>, Seq<char>)>, i: int)
    requires
        spec_unique_keys(ps),
        0 <= i < ps.len(),
    ensures
        spec_map_of(ps.remove(i)) =~= spec_map_of(ps).remove(ps[i].0),
    decreases ps.len(),
{
    let k = ps[i].0;
    if i == ps.len() - 1 {
        assert(ps.remove(i) =~= ps.drop_last());
        lemma_map_of_absent(ps.drop_last(), k);
    } else {
        lemma_map_of_remove(ps.drop_last(), i);
        assert(ps.remove(i).drop_last() =~= ps.drop_last().remove(i));
        assert(ps.remove(i).last() == ps.last());
    }
}

/// Replaces the entry for `key` (or appends one) so that the list keeps
/// unique keys and denotes the old mapping with `key` bound to `value`.
fn env_insert(list: &mut Vec<(String, String)>, key: String, value: String)
    requires
        spec_unique_keys(old(list).deep_view()),
    ensures
        spec_map_of(final(list).deep_view()) =~= spec_map_of(old(list).deep_view()).insert(
            key@,
            value@,
        ),
        spec_unique_keys(final(list).deep_view()),
        forall|m: int|
            0 <= m < final(list).deep_view().len() ==> (final(list).deep_view()[m] == (key@, value@)
                || old(list).deep_view().contains(final(list).deep_view()[m])),
{
    let ghost orig = old(list).deep_view();
    let n = list.len();
    let mut i: usize = 0;
    let mut found: Option<usize> = None;
    while i < n
        invariant
            n == list.len(),
            list.deep_view() == orig,
            i <= n,
            match found {
                Some(f) => f < n && orig[f as int].0 == key@,
                None => forall|k: int| 0 <= k < i ==> orig[k].0 != key@,
            },
        decreases n - i,
    {
        if found.is_none() {
            let p = &list[i];
            if crate::str_eq(p.0.as_str(), key.as_str()) {
                proof {
                    assert(orig[i as int].0 == p.0@);
                }
                found = Some(i);
            }
        }
        i = i + 1;
    }
    match found {
        Some(f) => {
            let _removed = list.remove(f);
            let ghost shorter = list.deep_view();
            proof {
                lemma_map_of_remove(orig, f as int);
                assert(shorter =~= orig.remove(f as int));
                assert forall|a: int, b: int|
                    0 <= a < b < shorter.len() implies shorter[a].0 != shorter[b].0 by {
                    let a0 = if a < f {
                        a
                    } else {
                        a + 1
                    };
                    let b0 = if b < f {
                        b
                    } else {
                        b + 1
                    };
                    assert(shorter[a] == orig[a0]);
                    assert(shorter[b] == orig[b0]);
                }
                assert forall|m: int| 0 <= m < shorter.len() implies shorter[m].0 != key@ by {
                    let m0 = if m < f {
                        m
                    } else {
                        m + 1
                    };
                    assert(shorter[m] == orig[m0]);
                }
                lemma_map_of_absent(shorter, key@);
            }
            let ghost kv = key@;
            let ghost vv = value@;
            list.push((key, value));
            proof {
                assert(list.deep_view() =~= shorter.push((kv, vv)));
                lemma_map_of_push(shorter, (kv, vv));
                assert(spec_map_of(list.deep_view()) =~= spec_map_of(shorter.push((kv, vv))));
                assert(spec_map_of(orig).remove(kv).insert(kv, vv) =~= spec_map_of(orig).insert(
                    kv,
                    vv,
                ));
                let dv = list.deep_view();
                assert forall|a: int, b: int| 0 <= a < b < dv.len() implies dv[a].0 != dv[b].0 by {
                    if b == dv.len() - 1 {
                        assert(dv[a] == shorter[a]);
                        assert(shorter[a].0 != kv);
                    } else {
                        assert(dv[a] == shorter[a]);
                        assert(dv[b] == shorter[b]);
                    }
                }
                assert forall|m: int|
                    0 <= m < dv.len() && m < shorter.len() implies orig.contains(dv[m]) by {
                    let m0 = if m < f {
                        m
                    } else {
                        m + 1
                    };
                    assert(dv[m] == orig[m0]);
                }
            }
        },
        None => {
            let ghost kv = key@;
            let ghost vv = value@;
            list.push((key, value));
            proof {
                assert(list.deep_view() =~= orig.push((kv, vv)));
                lemma_map_of_push(orig, (kv, vv));
                assert(spec_map_of(list.deep_view()) =~= spec_map_of(orig.push((kv, vv))));
                let dv = list.deep_view();
                assert forall|a: int, b: int| 0 <= a < b < dv.len() implies dv[a].0 != dv[b].0 by {
                    if b == dv.len() - 1 {
                        assert(dv[a] == orig[a]);
                        assert(orig[a].0 != kv);
                    } else {
                        assert(dv[a] == orig[a]);
                        assert(dv[b] == orig[b]);
                    }
                }
                assert forall|m: int| 0 <= m < dv.len() && m < orig.len() implies orig.contains(
                    dv[m],
                ) by {
                    assert(dv[m] == orig[m]);
                }
            }
        },
    }
}

/// Looks `key` up in the list; a copy of the bound value when present.
fn env_get(list: &Vec<(String, String)>, key: &str) -> (r: Option<String>)
    requires
        spec_unique_keys(list.deep_view()),
    ensures
        match r {
            Some(v) => spec_map_of(list.deep_view()).contains_key(key@) && spec_map_of(
                list.deep_view(),
            )[key@] == v@,
            None => !spec_map_of(list.deep_view()).contains_key(key@),
        },
{
    let n = list.len();
    let mut i: usize = 0;
    while i < n
        invariant
            n == list.len(),
            i <= n,
            spec_unique_keys(list.deep_view()),
            forall|k: int| 0 <= k < i ==> list.deep_view()[k].0 != key@,
        decreases n - i,
    {
        let p = &list[i];
        if crate::str_eq(p.0.as_str(), key) {
            proof {
                assert(list.deep_view()[i as int].0 == p.0@);
                lemma_map_of_index(list.deep_view(), i as int);
            }
            return Some(p.1.clone());
        }
        proof {
            assert(list.deep_view()[i as int].0 == p.0@);
        }
        i = i + 1;
    }
    proof {
        lemma_map_of_absent(list.deep_view(), key@);
    }
    None
}

/// An environment entry split at its first `=`: the key before it, the
/// value after it (empty when there is no `=`).
pub open spec fn spec_env_pair(s: Seq<char>) -> (Seq<char>, Seq<char>) {
    let i = spec_index_of(s, '=');
    (s.take(i), if i < s.len() {
        s.subrange(i + 1, s.len() as int)
    } else {
        Seq::empty()
    })
}

/// The mapping the image and configuration environments merge to, before
/// the `PATH` adjustment: image entries first, configuration overrides on
/// top.
pub open spec fn spec_env_base(image: Image, config: ContainerConfig) -> Map<Seq<char>, Seq<char>> {
    spec_map_of(image.spec_env().map_values(|e: Seq<char>| spec_env_pair(e)) + config.spec_env())
}

/// The final `PATH` value: the merged one with the binary directory
/// appended, or the binary directory alone when none is present.
pub open spec fn spec_new_path(base: Map<Seq<char>, Seq<char>>) -> Seq<char> {
    if base.contains_key("PATH"@) {
        base["PATH"@] + ":"@ + crate::BIN_DIR@
    } else {
        crate::BIN_DIR@
    }
}

/// The mapping the merged environment denotes: the base merge with `PATH`
/// rebound to [`spec_new_path`].
pub open spec fn spec_env_map(image: Image, config: ContainerConfig) -> Map<Seq<char>, Seq<char>> {
    spec_env_base(image, config).insert("PATH"@, spec_new_path(spec_env_base(image, config)))
}

/// Splits one `KEY=VALUE` image environment entry.
fn split_env_entry(entry: &str) -> (r: (String, String))
    requires
        spec_index_of(entry@, '=') < entry@.len(),
    ensures
        (r.0@, r.1@) == spec_env_pair(entry@),
        has_no(r.0@, '='),
{
    proof {
        lemma_index_of(entry@, '=');
    }
    let i = crate::find_char(entry, '=');
    let n = entry.unicode_len();
    let k = entry.substring_char(0, i).to_owned();
    let v = entry.substring_char(i + 1, n).to_owned();
    proof {
        assert(k@ =~= entry@.take(spec_index_of(entry@, '=')));
    }
    (k, v)
}

/// Splitting `key=value` back at its first `=` recovers the pair, as
/// long
/// as the key itself contains no `=`.
proof fn lemma_env_pair_of_formatted(k: Seq<char>, v: Seq<char>)
    requires
        has_no(k, '='),
    ensures
        spec_index_of(k + "="@ + v, '=') == k.len(),
        spec_index_of(k + "="@ + v, '=') < (k + "="@ + v).len(),
        spec_env_pair(k + "="@ + v) == (k, v),
{
    reveal_strlit("=");
    let s = k + "="@ + v;
    lemma_index_of(s, '=');
    assert(s[k.len() as int] == '=');
    let i = spec_index_of(s, '=');
    assert forall|j: int| 0 <= j < k.len() implies s[j] != '=' by {
        assert(s[j] == k[j]);
    }
    assert(i == k.len());
    assert(s.take(i) =~= k);
    assert(s.subrange(i + 1, s.len() as int) =~= v);
}

/// Merges the image-declared environment with the configuration's
/// overrides and fixes up `PATH`, as `KEY=VALUE` strings.
///
/// The result's entries carry unique keys, each entry contains an `=`, and
/// splitting them back into pairs denotes exactly [`spec_env_map`]; the
/// order of the entries is unspecified.
pub fn build_env(image: &Image, config: &ContainerConfig) -> (r: Vec<String>)
    requires
        forall|i: int|
            0 <= i < image.spec_env().len() ==> spec_index_of(#[trigger] image.spec_env()[i], '=')
                < image.spec_env()[i].len(),
        forall|i: int|
            0 <= i < config.spec_env().len() ==> has_no(#[trigger] config.spec_env()[i].0, '='),
    ensures
        spec_map_of(r.deep_view().map_values(|e: Seq<char>| spec_env_pair(e))) =~= spec_env_map(
            *image,
            *config,
        ),
        spec_unique_keys(r.deep_view().map_values(|e: Seq<char>| spec_env_pair(e))),
        forall|i: int|
            0 <= i < r.deep_view().len() ==> spec_index_of(#[trigger] r.deep_view()[i], '=')
                < r.deep_view()[i].len(),
{
    let ghost ipairs = image.spec_env().map_values(|e: Seq<char>| spec_env_pair(e));
    let mut list: Vec<(String, String)> = Vec::new();
    match &image.config {
        Some(c) => match &c.env {
            Some(envs) => {
                let mut i: usize = 0;
                while i < envs.len()
                    invariant
                        i <= envs.len(),
                        envs.deep_view() == image.spec_env(),
                        ipairs == image.spec_env().map_values(|e: Seq<char>| spec_env_pair(e)),
                        forall|k: int|
                            0 <= k < image.spec_env().len() ==> spec_index_of(
                                #[trigger] image.spec_env()[k],
                                '=',
                            ) < image.spec_env()[k].len(),
                        spec_unique_keys(list.deep_view()),
                        spec_map_of(list.deep_view()) =~= spec_map_of(ipairs.take(i as int)),
                        forall|m: int|
                            0 <= m < list.deep_view().len() ==> has_no(
                                #[trigger] list.deep_view()[m].0,
                                '=',
                            ),
                    decreases envs.len() - i,
                {
                    proof {
                        assert(spec_index_of(image.spec_env()[i as int], '=')
                            < image.spec_env()[i as int].len());
                        assert(envs.deep_view()[i as int] == envs@[i as int]@);
                    }
                    let (k, v) = split_env_entry(envs[i].as_str());
                    let ghost before = list.deep_view();
                    let ghost pair = (k@, v@);
                    env_insert(&mut list, k, v);
                    proof {
                        assert(ipairs[i as int] == spec_env_pair(image.spec_env()[i as int]));
                        assert(pair == ipairs[i as int]);
                        assert(ipairs.take((i + 1) as int) =~= ipairs.take(i as int).push(
                            ipairs[i as int],
                        ));
                        lemma_map_of_push(ipairs.take(i as int), ipairs[i as int]);
                        assert forall|m: int|
                            0 <= m < list.deep_view().len() implies has_no(
                            #[trigger] list.deep_view()[m].0,
                            '=',
                        ) by {
                            if list.deep_view()[m] != pair {
                                assert(before.contains(list.deep_view()[m]));
                            }
                        }
                    }
                    i = i + 1;
                }
                proof {
                    assert(ipairs.take(envs.len() as int) =~= ipairs);
                }
            },
            None => {},
        },
        None => {},
    }
    proof {
        if image.spec_env().len() == 0 {
            assert(ipairs =~= Seq::<(Seq<char>, Seq<char>)>::empty());
            assert(spec_map_of(list.deep_view()) =~= spec_map_of(ipairs));
        }
        assert(spec_map_of(list.deep_view()) =~= spec_map_of(ipairs));
    }
    let ghost cpairs = config.spec_env();
    match &config.env {
        Some(envs) => {
            let mut i: usize = 0;
            while i < envs.len()
                invariant
                    i <= envs.len(),
                    envs.deep_view() == config.spec_env(),
                    cpairs == config.spec_env(),
                    ipairs == image.spec_env().map_values(|e: Seq<char>| spec_env_pair(e)),
                    forall|k: int|
                        0 <= k < config.spec_env().len() ==> has_no(
                            #[trigger] config.spec_env()[k].0,
                            '=',
                        ),
                    spec_unique_keys(list.deep_view()),
                    spec_map_of(list.deep_view()) =~= spec_map_of(ipairs + cpairs.take(i as int)),
                    forall|m: int|
                        0 <= m < list.deep_view().len() ==> has_no(
                            #[trigger] list.deep_view()[m].0,
                            '=',
                        ),
                decreases envs.len() - i,
            {
                let p = &envs[i];
                let k = p.0.clone();
                let v = p.1.clone();
                proof {
                    assert(has_no(config.spec_env()[i as int].0, '='));
                    assert(cpairs[i as int] == (p.0@, p.1@));
                }
                let ghost before = list.deep_view();
                let ghost pair = (k@, v@);
                env_insert(&mut list, k, v);
                proof {
                    assert(pair == cpairs[i as int]);
                    assert(ipairs + cpairs.take((i + 1) as int) =~= (ipairs + cpairs.take(
                        i as int,
                    )).push(cpairs[i as int]));
                    lemma_map_of_push(ipairs + cpairs.take(i as int), cpairs[i as int]);
                    assert forall|m: int|
                        0 <= m < list.deep_view().len() implies has_no(
                        #[trigger] list.deep_view()[m].0,
                        '=',
                    ) by {
                        if list.deep_view()[m] != pair {
                            assert(before.contains(list.deep_view()[m]));
                        }
                    }
                }
                i = i + 1;
            }
            proof {
                assert(cpairs.take(envs.len() as int) =~= cpairs);
            }
        },
        None => {
            proof {
                assert(ipairs + cpairs =~= ipairs);
            }
        },
    }
    proof {
        assert(spec_map_of(list.deep_view()) =~= spec_env_base(*image, *config));
    }
    let ghost base = spec_env_base(*image, *config);
    let new_path = match env_get(&list, "PATH") {
        Some(cur) => {
            let mut p = cur;
            p.append(":");
            p.append(crate::BIN_DIR);
            p
        },
        None => crate::BIN_DIR.to_owned(),
    };
    proof {
        assert(new_path@ == spec_new_path(base));
    }
    let ghost before = list.deep_view();
    env_insert(&mut list, "PATH".to_owned(), new_path);
    proof {
        assert(has_no("PATH"@, '=')) by {
            reveal_strlit("PATH");
        }
        assert forall|m: int| 0 <= m < list.deep_view().len() implies has_no(
            #[trigger] list.deep_view()[m].0,
            '=',
        ) by {
            if list.deep_view()[m].0 != "PATH"@ {
                assert(before.contains(list.deep_view()[m]));
            }
        }
        assert(spec_map_of(list.deep_view()) =~= spec_env_map(*image, *config));
    }
    let mut out: Vec<String> = Vec::new();
    let n = list.len();
    let mut i: usize = 0;
    while i < n
        invariant
            n == list.len(),
            i <= n,
            spec_unique_keys(list.deep_view()),
            forall|m: int|
                0 <= m < list.deep_view().len() ==> has_no(#[trigger] list.deep_view()[m].0, '='),
            out.deep_view().map_values(|e: Seq<char>| spec_env_pair(e)) =~= list.deep_view().take(
                i as int,
            ),
            forall|m: int|
                0 <= m < out.deep_view().len() ==> spec_index_of(#[trigger] out.deep_view()[m], '=')
                    < out.deep_view()[m].len(),
        decreases n - i,
    {
        let p = &list[i];
        proof {
            assert(has_no(list.deep_view()[i as int].0, '='));
            assert(list.deep_view()[i as int] == (p.0@, p.1@));
        }
        let mut entry = p.0.clone();
        entry.append("=");
        entry.append(p.1.as_str());
        proof {
            lemma_env_pair_of_formatted(p.0@, p.1@);
        }
        let ghost prev = out.deep_view();
        out.push(entry);
        proof {
            assert(out.deep_view() =~= prev.push(p.0@ + "="@ + p.1@));
            assert(out.deep_view().map_values(|e: Seq<char>| spec_env_pair(e)) =~= prev.map_values(
                |e: Seq<char>| spec_env_pair(e),
            ).push(spec_env_pair(p.0@ + "="@ + p.1@)));
            assert(list.deep_view().take((i + 1) as int) =~= list.deep_view().take(i as int).push(
                list.deep_view()[i as int],
            ));
        }
        i = i + 1;
    }
    proof {
        assert(list.deep_view().take(n as int) =~= list.deep_view());
        assert(spec_map_of(out.deep_view().map_values(|e: Seq<char>| spec_env_pair(e)))
            =~= spec_env_map(*image, *config));
    }
    out
}

} // verus!
