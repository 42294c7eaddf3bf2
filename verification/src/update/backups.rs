//! Which backups of earlier versions to delete: backups are directories
//! named `backup_v{version}_{date}`; the newest of each version stands for
//! it, and only the most recent versions (by name) are kept.

use vstd::prelude::*;
use crate::text::{
    chars_of, eq_str, lemma_lex_lt_irreflexive, lemma_lex_lt_total, lemma_lex_lt_transitive, lex_lt,
    starts_with, starts_with_spec, str_less, string_of,
};

verus! {

/// Each version sorts strictly before the ones after it.
pub open spec fn strictly_sorted(s: Seq<Seq<char>>) -> bool {
    forall|i: int, j: int| 0 <= i < j < s.len() ==> lex_lt(#[trigger] s[i], #[trigger] s[j])
}

/// The version a backup directory belongs to: what follows `backup_v` up to
/// the first `_`; none when the name has no such form.
pub open spec fn backup_version(name: Seq<char>) -> Option<Seq<char>> {
    if starts_with_spec(name, "backup_v"@) {
        let rest = name.skip(8);
        if exists|k: int| 0 <= k < rest.len() && rest[k] == '_' {
            let k = choose|k: int| 0 <= k < rest.len() && rest[k] == '_' && forall|j: int| 0 <= j < k ==> rest[j] != '_';
            Some(rest.take(k))
        } else {
            None
        }
    } else {
        None
    }
}

/// The version of a backup directory name, if it has one.
pub fn version_of_backup(name: &str) -> (r: Option<String>)
    ensures
        match r {
            Some(v) => backup_version(name@) == Some(v@),
            None => backup_version(name@) is None,
        },
{
    if !starts_with(name, "backup_v") {
        return None;
    }
    proof {
        reveal_strlit("backup_v");
    }
    let cs = chars_of(name);
    let ghost rest = name@.skip(8);
    let mut k: usize = 8;
    while k < cs.len() && cs[k] != '_'
        invariant
            cs@ == name@,
            8 <= k <= cs@.len(),
            rest == name@.skip(8),
            forall|j: int| 0 <= j < k - 8 ==> rest[j] != '_',
        decreases cs.len() - k,
    {
        k += 1;
    }
    if k == cs.len() {
        assert(!exists|m: int| 0 <= m < rest.len() && rest[m] == '_');
        return None;
    }
    let v = string_of(vstd::slice::slice_subrange(cs.as_slice(), 8, k));
    proof {
        let kk = (k - 8) as int;
        assert(rest[kk] == '_');
        let c = choose|m: int| 0 <= m < rest.len() && rest[m] == '_' && forall|j: int| 0 <= j < m ==> rest[j] != '_';
        if c < kk {
        } else if c > kk {
        }
        assert(c == kk);
        assert(v@ =~= rest.take(kk));
    }
    Some(v)
}

/// Whether `names[i]` is a backup of version `v`.
pub open spec fn of_version(names: Seq<Seq<char>>, i: int, v: Seq<char>) -> bool {
    0 <= i < names.len() && backup_version(names[i]) == Some(v)
}

/// `l` is one of the backups of version `v` among `names`.
pub open spec fn is_backup_of(names: Seq<Seq<char>>, v: Seq<char>, l: Seq<char>) -> bool {
    exists|i: int| of_version(names, i, v) && names[i] == l
}

/// The backups grouped by version.
pub struct BackupGroups {
    /// The versions that have backups, in increasing order.
    pub versions: Vec<String>,
    /// The newest backup (by name) of each version, in the same order.
    pub latest: Vec<String>,
}

/// `g` groups `names`: its versions are exactly theirs, sorted, and each
/// has the newest of its backups.
pub open spec fn groups_of(vs: Seq<Seq<char>>, ls: Seq<Seq<char>>, names: Seq<Seq<char>>) -> bool {
    &&& vs.len() == ls.len()
    &&& strictly_sorted(vs)
    &&& forall|v: Seq<char>| vs.contains(v) <==> exists|i: int| of_version(names, i, v)
    &&& forall|k: int| 0 <= k < vs.len() ==> #[trigger] is_backup_of(names, vs[k], ls[k])
    &&& forall|k: int, i: int| 0 <= k < vs.len() && #[trigger] of_version(names, i, vs[k]) ==> !lex_lt(ls[k], names[i])
}

/// A name that is no backup leaves the groups as they are.
proof fn lemma_add_other(vs: Seq<Seq<char>>, ls: Seq<Seq<char>>, pre: Seq<Seq<char>>, name: Seq<char>)
    requires
        groups_of(vs, ls, pre),
        backup_version(name) is None,
    ensures
        groups_of(vs, ls, pre.push(name)),
{
    let post = pre.push(name);
    assert forall|j: int, v: Seq<char>| of_version(pre, j, v) <==> of_version(post, j, v) by {}
    assert forall|k: int| 0 <= k < vs.len() implies #[trigger] is_backup_of(post, vs[k], ls[k]) by {
        assert(is_backup_of(pre, vs[k], ls[k]));
        let i = choose|i: int| of_version(pre, i, vs[k]) && pre[i] == ls[k];
        assert(of_version(post, i, vs[k]) && post[i] == ls[k]);
    }
}

/// A backup of a known version replaces that version's newest when it is newer.
proof fn lemma_add_known(
    vs: Seq<Seq<char>>,
    ls0: Seq<Seq<char>>,
    ls1: Seq<Seq<char>>,
    pre: Seq<Seq<char>>,
    name: Seq<char>,
    p: int,
)
    requires
        groups_of(vs, ls0, pre),
        0 <= p < vs.len(),
        backup_version(name) == Some(vs[p]),
        ls1 == (if lex_lt(ls0[p], name) {
            ls0.update(p, name)
        } else {
            ls0
        }),
    ensures
        groups_of(vs, ls1, pre.push(name)),
{
    let post = pre.push(name);
    let i = pre.len() as int;
    let v = vs[p];
    assert forall|j: int, w: Seq<char>| of_version(pre, j, w) implies of_version(post, j, w) by {}
    assert forall|k: int| 0 <= k < vs.len() implies #[trigger] is_backup_of(post, vs[k], ls1[k]) by {
        if k == p && ls1[k] != ls0[k] {
            assert(of_version(post, i, vs[k]) && post[i] == ls1[k]);
        } else {
            assert(is_backup_of(pre, vs[k], ls0[k]));
            let j = choose|j: int| of_version(pre, j, vs[k]) && pre[j] == ls0[k];
            assert(of_version(post, j, vs[k]) && post[j] == ls1[k]);
        }
    }
    let upd = lex_lt(ls0[p], name);
    lemma_lex_lt_irreflexive(name);
    assert forall|k: int, j: int| 0 <= k < vs.len() && #[trigger] of_version(post, j, vs[k]) implies !lex_lt(
        ls1[k],
        post[j],
    ) by {
        if k != p {
            assert(ls1[k] == ls0[k]);
        }
        if j == i {
            if k != p {
                lemma_lex_lt_irreflexive(v);
                if k < p {
                    assert(lex_lt(vs[k], vs[p]));
                } else {
                    assert(lex_lt(vs[p], vs[k]));
                }
            } else if upd {
                assert(ls1[k] == name);
            } else {
                assert(ls1[k] == ls0[k]);
            }
        } else {
            assert(post[j] == pre[j]);
            assert(of_version(pre, j, vs[k]));
            assert(!lex_lt(ls0[k], pre[j]));
            if k == p && upd {
                assert(ls1[k] == name);
                if lex_lt(name, pre[j]) {
                    lemma_lex_lt_transitive(ls0[k], name, pre[j]);
                }
            } else {
                assert(ls1[k] == ls0[k]);
            }
        }
    }
    assert forall|w: Seq<char>| vs.contains(w) <==> exists|j: int| of_version(post, j, w) by {
        if exists|j: int| of_version(post, j, w) {
            let j = choose|j: int| of_version(post, j, w);
            if j < i {
                assert(of_version(pre, j, w));
            } else {
                assert(vs[p] == w);
            }
        }
        if vs.contains(w) {
            let j = choose|j: int| of_version(pre, j, w);
            assert(of_version(post, j, w));
        }
    }
}

/// A backup of a new version makes a group of its own, in order.
proof fn lemma_add_new(vs0: Seq<Seq<char>>, ls0: Seq<Seq<char>>, pre: Seq<Seq<char>>, name: Seq<char>, v: Seq<char>, p: int)
    requires
        groups_of(vs0, ls0, pre),
        backup_version(name) == Some(v),
        0 <= p <= vs0.len(),
        forall|j: int| 0 <= j < p ==> lex_lt(#[trigger] vs0[j], v),
        p < vs0.len() ==> !lex_lt(vs0[p], v) && vs0[p] != v,
    ensures
        groups_of(vs0.insert(p, v), ls0.insert(p, name), pre.push(name)),
{
    let post = pre.push(name);
    let i = pre.len() as int;
    let vs1 = vs0.insert(p, v);
    let ls1 = ls0.insert(p, name);
    vs0.insert_ensures(p, v);
    ls0.insert_ensures(p, name);
    if p < vs0.len() {
        lemma_lex_lt_total(vs0[p], v);
    }
    assert forall|a: int, b: int| 0 <= a < b < vs1.len() implies lex_lt(#[trigger] vs1[a], #[trigger] vs1[b]) by {
        if b < p {
        } else if b == p {
        } else if a < p {
            assert(vs1[p + 1] == vs0[p]);
            if b > p + 1 {
                assert(lex_lt(vs0[p], vs0[b - 1]));
                lemma_lex_lt_transitive(v, vs0[p], vs0[b - 1]);
            }
            lemma_lex_lt_transitive(vs1[a], v, vs1[b]);
        } else if a == p {
            if b > p + 1 {
                assert(lex_lt(vs0[p], vs0[b - 1]));
                lemma_lex_lt_transitive(v, vs0[p], vs0[b - 1]);
            }
        } else {
            assert(vs1[a] == vs0[a - 1]);
            assert(vs1[b] == vs0[b - 1]);
        }
    }
    assert forall|w: Seq<char>| vs1.contains(w) <==> exists|j: int| of_version(post, j, w) by {
        if vs1.contains(w) {
            let k = choose|k: int| 0 <= k < vs1.len() && vs1[k] == w;
            if k < p {
                assert(vs0[k] == w);
                assert(vs0.contains(w));
                let j = choose|j: int| of_version(pre, j, w);
                assert(of_version(post, j, w));
            } else if k == p {
                assert(of_version(post, i, w));
            } else {
                assert(vs0[k - 1] == w);
                assert(vs0.contains(w));
                let j = choose|j: int| of_version(pre, j, w);
                assert(of_version(post, j, w));
            }
        }
        if exists|j: int| of_version(post, j, w) {
            let j = choose|j: int| of_version(post, j, w);
            if j < i {
                assert(of_version(pre, j, w));
                assert(vs0.contains(w));
                let k = choose|k: int| 0 <= k < vs0.len() && vs0[k] == w;
                if k < p {
                    assert(vs1[k] == w);
                } else {
                    assert(vs1[k + 1] == w);
                }
            } else {
                assert(vs1[p] == w);
            }
        }
    }
    assert forall|k: int| 0 <= k < vs1.len() implies #[trigger] is_backup_of(post, vs1[k], ls1[k]) by {
        if k < p {
            assert(is_backup_of(pre, vs0[k], ls0[k]));
            let j = choose|j: int| of_version(pre, j, vs0[k]) && pre[j] == ls0[k];
            assert(of_version(post, j, vs1[k]) && post[j] == ls1[k]);
        } else if k == p {
            assert(of_version(post, i, vs1[k]) && post[i] == ls1[k]);
        } else {
            assert(is_backup_of(pre, vs0[k - 1], ls0[k - 1]));
            let j = choose|j: int| of_version(pre, j, vs0[k - 1]) && pre[j] == ls0[k - 1];
            assert(of_version(post, j, vs1[k]) && post[j] == ls1[k]);
        }
    }
    assert forall|k: int, j: int| 0 <= k < vs1.len() && #[trigger] of_version(post, j, vs1[k]) implies !lex_lt(
        ls1[k],
        post[j],
    ) by {
        if j == i {
            if k != p {
                if k < p {
                    assert(lex_lt(vs0[k], v));
                } else {
                    assert(lex_lt(v, vs1[k]));
                }
                lemma_lex_lt_irreflexive(v);
            } else {
                lemma_lex_lt_irreflexive(post[j]);
            }
        } else {
            assert(of_version(pre, j, vs1[k]));
            if k == p {
                assert(vs0.contains(v));
                let m = choose|m: int| 0 <= m < vs0.len() && vs0[m] == v;
                if m < p {
                    assert(lex_lt(vs0[m], v));
                } else if m > p {
                    assert(lex_lt(vs0[p], vs0[m]));
                }
                lemma_lex_lt_irreflexive(v);
            } else if k < p {
                assert(!lex_lt(ls0[k], pre[j]));
            } else {
                assert(!lex_lt(ls0[k - 1], pre[j]));
            }
        }
    }
}

/// The views of a list of strings.
pub open spec fn names_view(v: Seq<String>) -> Seq<Seq<char>> {
    v.map_values(|s: String| s@)
}

/// Adds one directory name to the groups.
fn add_to_groups(versions: &mut Vec<String>, latest: &mut Vec<String>, Ghost(pre): Ghost<Seq<Seq<char>>>, name: &String)
    requires
        groups_of(names_view(old(versions)@), names_view(old(latest)@), pre),
    ensures
        groups_of(names_view(final(versions)@), names_view(final(latest)@), pre.push(name@)),
{
    let ghost vs0 = names_view(versions@);
    let ghost ls0 = names_view(latest@);
    match version_of_backup(name.as_str()) {
        None => {
            proof {
                lemma_add_other(vs0, ls0, pre, name@);
            }
        },
        Some(v) => {
            let n = versions.len();
            let mut p: usize = 0;
            while p < n && str_less(versions[p].as_str(), v.as_str())
                invariant
                    n == versions@.len(),
                    vs0 == names_view(versions@),
                    p <= n,
                    forall|j: int| 0 <= j < p ==> lex_lt(#[trigger] vs0[j], v@),
                decreases n - p,
            {
                assert(vs0[p as int] == versions@[p as int]@);
                p += 1;
            }
            if p < n {
                assert(vs0[p as int] == versions@[p as int]@);
            }
            if p < n && eq_str(versions[p].as_str(), v.as_str()) {
                assert(ls0[p as int] == latest@[p as int]@);
                if str_less(latest[p].as_str(), name.as_str()) {
                    latest[p] = name.clone();
                    assert(names_view(latest@) =~= ls0.update(p as int, name@));
                }
                proof {
                    lemma_add_known(vs0, ls0, names_view(latest@), pre, name@, p as int);
                }
            } else {
                versions.insert(p, v.clone());
                latest.insert(p, name.clone());
                assert(names_view(versions@) =~= vs0.insert(p as int, v@));
                assert(names_view(latest@) =~= ls0.insert(p as int, name@));
                proof {
                    lemma_add_new(vs0, ls0, pre, name@, v@, p as int);
                }
            }
        },
    }
}

/// Groups backup directory names by version, keeping the newest of each.
pub fn group_backups(names: &Vec<String>) -> (g: BackupGroups)
    ensures
        groups_of(names_view(g.versions@), names_view(g.latest@), names_view(names@)),
{
    let ghost nv = names_view(names@);
    let mut versions: Vec<String> = Vec::new();
    let mut latest: Vec<String> = Vec::new();
    let mut i: usize = 0;
    assert(groups_of(names_view(versions@), names_view(latest@), nv.take(0))) by {
        assert(names_view(versions@) =~= Seq::<Seq<char>>::empty());
        assert(names_view(latest@) =~= Seq::<Seq<char>>::empty());
    }
    while i < names.len()
        invariant
            nv == names_view(names@),
            i <= names@.len(),
            groups_of(names_view(versions@), names_view(latest@), nv.take(i as int)),
        decreases names.len() - i,
    {
        assert(nv.take(i + 1) =~= nv.take(i as int).push(names@[i as int]@));
        add_to_groups(&mut versions, &mut latest, Ghost(nv.take(i as int)), &names[i]);
        i += 1;
    }
    assert(nv.take(nv.len() as int) =~= nv);
    BackupGroups { versions, latest }
}

/// The backups to delete so that at most `max_versions` versions remain:
/// the newest backup of each of the oldest versions beyond that number.
pub fn backups_to_remove(names: &Vec<String>, max_versions: usize) -> (r: Vec<String>)
    ensures
        ({
            let nv = names_view(names@);
            exists|vs: Seq<Seq<char>>, ls: Seq<Seq<char>>| {
                &&& #[trigger] groups_of(vs, ls, nv)
                &&& names_view(r@) == ls.take(
                    if vs.len() > max_versions {
                        vs.len() - max_versions
                    } else {
                        0
                    },
                )
            }
        }),
{
    let g = group_backups(names);
    let count = if g.versions.len() > max_versions {
        g.versions.len() - max_versions
    } else {
        0
    };
    let mut out: Vec<String> = Vec::new();
    let mut k: usize = 0;
    let ghost lv = names_view(g.latest@);
    while k < count
        invariant
            count <= g.latest@.len(),
            lv == names_view(g.latest@),
            k <= count,
            names_view(out@) == lv.take(k as int),
        decreases count - k,
    {
        let ghost before = names_view(out@);
        out.push(g.latest[k].clone());
        assert(names_view(out@) =~= before.push(lv[k as int]));
        assert(lv.take(k + 1) =~= lv.take(k as int).push(lv[k as int]));
        k += 1;
    }
    assert(groups_of(names_view(g.versions@), lv, names_view(names@)));
    out
}

} // verus!
