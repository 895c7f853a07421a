//! Feature-set resolution: which features a client's grants give it.
//!
//! The repositories are read up front; resolution itself is a function of the
//! space's features, its feature sets and the granted set IDs.

use vstd::prelude::*;

use crate::feature::{FeatureType, ServerFeature};
use crate::feature_set::{FeatureSet, FeatureSetMember, FeatureSetType, MemberMode, MemberType};
use crate::text::chars_of;
use crate::text::chars_equal;

verus! {

/// A feature a client may be offered: available and not disabled by the user.
pub open spec fn usable(f: ServerFeature) -> bool {
    f.is_available && !f.disabled
}

/// Some string of `v` has the characters `x`.
pub open spec fn in_view(v: Seq<String>, x: Seq<char>) -> bool {
    exists|i: int| 0 <= i < v.len() && #[trigger] v[i]@ == x
}

/// The first set with this ID that is not deleted, as a lookup by ID returns it.
pub open spec fn find_set(sets: Seq<FeatureSet>, id: Seq<char>) -> Option<FeatureSet>
    decreases sets.len(),
{
    if sets.len() == 0 {
        None
    } else if !sets[0].is_deleted && sets[0].id@ == id {
        Some(sets[0])
    } else {
        find_set(sets.drop_first(), id)
    }
}

/// The member's mode is the one asked for (`to_allow`: Include, else Exclude).
pub open spec fn mode_is(m: MemberMode, to_allow: bool) -> bool {
    (m == MemberMode::Include) == to_allow
}

/// Feature `f` matches a server filter, and is usable when that is required.
pub open spec fn feature_matches(f: ServerFeature, server: Option<Seq<char>>, need_usable: bool) -> bool {
    &&& (!need_usable || usable(f))
    &&& match server {
        Some(s) => f.server_id@ == s,
        None => true,
    }
}

/// Some feature matching the filter has ID `x`.
pub open spec fn some_feature_id(
    feats: Seq<ServerFeature>,
    server: Option<Seq<char>>,
    need_usable: bool,
    x: Seq<char>,
) -> bool {
    exists|i: int|
        0 <= i < feats.len() && feature_matches(feats[i], server, need_usable) && #[trigger] feats[i].id@
            == x
}

/// Member `m` puts feature ID `x` on the allow list (`to_allow`) or on the
/// deny list (`!to_allow`). A nested all or server-all set contributes its
/// usable features under the member's mode; a nested default or custom set
/// contributes its own members under their own modes, `fuel` levels deep.
pub open spec fn member_adds(
    sets: Seq<FeatureSet>,
    feats: Seq<ServerFeature>,
    m: FeatureSetMember,
    fuel: nat,
    x: Seq<char>,
    to_allow: bool,
) -> bool
    decreases fuel, 0nat,
{
    match m.member_type {
        MemberType::Feature => mode_is(m.mode, to_allow) && m.member_id@ == x,
        MemberType::FeatureSet => match find_set(sets, m.member_id@) {
            None => false,
            Some(n) => match n.feature_set_type {
                FeatureSetType::All => mode_is(m.mode, to_allow) && some_feature_id(
                    feats,
                    None,
                    true,
                    x,
                ),
                FeatureSetType::ServerAll => mode_is(m.mode, to_allow) && n.server_id is Some
                    && some_feature_id(feats, Some(n.server_id->0@), true, x),
                _ => fuel > 0 && members_add(sets, feats, n.members@, (fuel - 1) as nat, x, to_allow),
            },
        },
    }
}

/// Some member of `members` puts `x` on the chosen list.
pub open spec fn members_add(
    sets: Seq<FeatureSet>,
    feats: Seq<ServerFeature>,
    members: Seq<FeatureSetMember>,
    fuel: nat,
    x: Seq<char>,
    to_allow: bool,
) -> bool
    decreases fuel, members.len(),
{
    if members.len() == 0 {
        false
    } else {
        members_add(sets, feats, members.drop_last(), fuel, x, to_allow) || member_adds(
            sets,
            feats,
            members.last(),
            fuel,
            x,
            to_allow,
        )
    }
}

/// A granted set puts `x` on the chosen list. A granted server-all set
/// includes every feature of its server; default and custom sets go by
/// their members; an all set works through `grants_all` instead.
pub open spec fn grant_adds(
    sets: Seq<FeatureSet>,
    feats: Seq<ServerFeature>,
    fs: FeatureSet,
    fuel: nat,
    x: Seq<char>,
    to_allow: bool,
) -> bool {
    match fs.feature_set_type {
        FeatureSetType::All => false,
        FeatureSetType::ServerAll => to_allow && fs.server_id is Some && some_feature_id(
            feats,
            Some(fs.server_id->0@),
            false,
            x,
        ),
        _ => members_add(sets, feats, fs.members@, fuel, x, to_allow),
    }
}

/// Some granted set ID names an existing set that puts `x` on the chosen list.
pub open spec fn grants_add(
    sets: Seq<FeatureSet>,
    feats: Seq<ServerFeature>,
    ids: Seq<String>,
    fuel: nat,
    x: Seq<char>,
    to_allow: bool,
) -> bool {
    exists|k: int|
        0 <= k < ids.len() && (#[trigger] find_set(sets, ids[k]@) matches Some(fs) && grant_adds(
            sets,
            feats,
            fs,
            fuel,
            x,
            to_allow,
        ))
}

/// Some granted set ID names an existing all set.
pub open spec fn grants_all(sets: Seq<FeatureSet>, ids: Seq<String>) -> bool {
    exists|k: int|
        0 <= k < ids.len() && (#[trigger] find_set(sets, ids[k]@) matches Some(fs)
            && fs.feature_set_type == FeatureSetType::All)
}

/// The feature is offered: usable, and either an all set is granted or its ID
/// is included and not excluded; and it has the asked-for kind, if any.
pub open spec fn selected(
    sets: Seq<FeatureSet>,
    feats: Seq<ServerFeature>,
    ids: Seq<String>,
    fuel: nat,
    filter_type: Option<FeatureType>,
    f: ServerFeature,
) -> bool {
    &&& usable(f)
    &&& (grants_all(sets, ids) || (grants_add(sets, feats, ids, fuel, f.id@, true) && !grants_add(
        sets,
        feats,
        ids,
        fuel,
        f.id@,
        false,
    )))
    &&& match filter_type {
        Some(t) => f.feature_type == t,
        None => true,
    }
}

/// The nesting depth to which default and custom sets are expanded: the
/// number of sets, enough for every chain of distinct nested sets.
pub open spec fn resolution_fuel(sets: Seq<FeatureSet>) -> nat {
    sets.len()
}

/// `selected` as a predicate on features.
pub open spec fn selection(
    sets: Seq<FeatureSet>,
    feats: Seq<ServerFeature>,
    ids: Seq<String>,
    filter_type: Option<FeatureType>,
) -> spec_fn(ServerFeature) -> bool {
    |f: ServerFeature| selected(sets, feats, ids, resolution_fuel(sets), filter_type, f)
}

/// The features that `ids` grant, in the order of `feats`.
pub open spec fn resolved(
    sets: Seq<FeatureSet>,
    feats: Seq<ServerFeature>,
    ids: Seq<String>,
    filter_type: Option<FeatureType>,
) -> Seq<ServerFeature> {
    feats.filter(selection(sets, feats, ids, filter_type))
}

/// Whether two strings hold the same characters.
fn same(a: &String, b: &String) -> (r: bool)
    ensures
        r == (a@ == b@),
{
    chars_equal(&chars_of(a.as_str()), &chars_of(b.as_str()))
}

/// Index of the first set with this ID that is not deleted.
fn find_set_index(sets: &Vec<FeatureSet>, id: &String) -> (r: Option<usize>)
    ensures
        match r {
            Some(i) => i < sets.len() && find_set(sets@, id@) == Some(sets@[i as int]),
            None => find_set(sets@, id@) is None,
        },
{
    let mut i: usize = 0;
    assert(sets@.skip(0) =~= sets@);
    while i < sets.len()
        invariant
            i <= sets.len(),
            find_set(sets@, id@) == find_set(sets@.skip(i as int), id@),
        decreases sets.len() - i,
    {
        assert(sets@.skip(i as int).drop_first() =~= sets@.skip(i + 1));
        if !sets[i].is_deleted && same(&sets[i].id, id) {
            return Some(i);
        }
        i = i + 1;
    }
    None
}

/// Appends the IDs of the features that match the filter.
fn add_feature_ids(
    feats: &Vec<ServerFeature>,
    server: Option<&String>,
    need_usable: bool,
    out: &mut Vec<String>,
)
    ensures
        forall|x: Seq<char>|
            #[trigger] in_view(final(out)@, x) <==> in_view(old(out)@, x) || some_feature_id(
                feats@,
                match server {
                    Some(s) => Some(s@),
                    None => None,
                },
                need_usable,
                x,
            ),
{
    let ghost srv: Option<Seq<char>> = match server {
        Some(s) => Some(s@),
        None => None,
    };
    let ghost start = out@;
    for i in 0..feats.len()
        invariant
            srv == match server {
                Some(s) => Some(s@),
                None => None,
            },
            forall|x: Seq<char>|
                #[trigger] in_view(out@, x) <==> in_view(start, x) || exists|j: int|
                    0 <= j < i && feature_matches(feats@[j], srv, need_usable) && #[trigger] feats@[j].id@
                        == x,
    {
        let f = &feats[i];
        let usable_ok = !need_usable || (f.is_available && !f.disabled);
        let server_ok = match server {
            Some(s) => same(&f.server_id, s),
            None => true,
        };
        let ghost before = out@;
        if usable_ok && server_ok {
            out.push(f.id.clone());
        }
        assert forall|x: Seq<char>|
            #[trigger] in_view(out@, x) <==> in_view(start, x) || exists|j: int|
                0 <= j < i + 1 && feature_matches(feats@[j], srv, need_usable) && #[trigger] feats@[j].id@
                    == x by {
            if in_view(out@, x) {
                let k = choose|k: int| 0 <= k < out@.len() && #[trigger] out@[k]@ == x;
                if k < before.len() {
                    assert(before[k]@ == x);
                    assert(in_view(before, x));
                } else {
                    assert(feats@[i as int].id@ == x);
                }
            }
            if in_view(before, x) {
                let k = choose|k: int| 0 <= k < before.len() && #[trigger] before[k]@ == x;
                assert(out@[k]@ == x);
            }
            if exists|j: int|
                0 <= j < i + 1 && feature_matches(feats@[j], srv, need_usable) && #[trigger] feats@[j].id@
                    == x {
                let j = choose|j: int|
                    0 <= j < i + 1 && feature_matches(feats@[j], srv, need_usable) && #[trigger] feats@[j].id@
                        == x;
                if j == i {
                    assert(out@[out@.len() - 1]@ == x);
                } else {
                    assert(in_view(before, x));
                    let k = choose|k: int| 0 <= k < before.len() && #[trigger] before[k]@ == x;
                    assert(out@[k]@ == x);
                }
            }
        }
    }
}


proof fn lemma_nested_member(
    sets: Seq<FeatureSet>,
    feats: Seq<ServerFeature>,
    m: FeatureSetMember,
    n: FeatureSet,
    fuel: nat,
    x: Seq<char>,
    to_allow: bool,
)
    requires
        m.member_type == MemberType::FeatureSet,
        find_set(sets, m.member_id@) == Some(n),
        n.feature_set_type != FeatureSetType::All,
        n.feature_set_type != FeatureSetType::ServerAll,
    ensures
        member_adds(sets, feats, m, fuel, x, to_allow) == (fuel > 0 && members_add(
            sets,
            feats,
            n.members@,
            (fuel - 1) as nat,
            x,
            to_allow,
        )),
{
}

proof fn lemma_in_view_concat(a: Seq<String>, b: Seq<String>)
    ensures
        forall|x: Seq<char>| #[trigger] in_view(a + b, x) <==> in_view(a, x) || in_view(b, x),
{
    assert forall|x: Seq<char>| #[trigger] in_view(a + b, x) <==> in_view(a, x) || in_view(b, x) by {
        if in_view(a + b, x) {
            let k = choose|k: int| 0 <= k < (a + b).len() && #[trigger] (a + b)[k]@ == x;
            if k < a.len() {
                assert(a[k]@ == x);
            } else {
                assert(b[k - a.len()]@ == x);
            }
        }
        if in_view(a, x) {
            let k = choose|k: int| 0 <= k < a.len() && #[trigger] a[k]@ == x;
            assert((a + b)[k]@ == x);
        }
        if in_view(b, x) {
            let k = choose|k: int| 0 <= k < b.len() && #[trigger] b[k]@ == x;
            assert((a + b)[a.len() + k]@ == x);
        }
    }
}

/// Appends `src` to `dst`.
fn append_all(dst: &mut Vec<String>, src: Vec<String>)
    ensures
        final(dst)@ == old(dst)@ + src@,
{
    let ghost start = dst@;
    for i in 0..src.len()
        invariant
            dst@ == start + src@.take(i as int),
    {
        dst.push(src[i].clone());
        assert(src@.take(i + 1) == src@.take(i as int).push(src@[i as int]));
    }
    assert(src@.take(src.len() as int) == src@);
}

/// Puts `feature_ids` on the allow list for an Include member and on the
/// deny list for an Exclude member.
pub fn apply_mode_to_set(
    mode: MemberMode,
    feature_ids: Vec<String>,
    allowed: &mut Vec<String>,
    excluded: &mut Vec<String>,
)
    ensures
        mode == MemberMode::Include ==> final(allowed)@ == old(allowed)@ + feature_ids@
            && final(excluded)@ == old(excluded)@,
        mode == MemberMode::Exclude ==> final(excluded)@ == old(excluded)@ + feature_ids@
            && final(allowed)@ == old(allowed)@,
{
    match mode {
        MemberMode::Include => append_all(allowed, feature_ids),
        MemberMode::Exclude => append_all(excluded, feature_ids),
    }
}

/// Adds the contributions of one member (see `member_adds`).
fn resolve_member(
    sets: &Vec<FeatureSet>,
    feats: &Vec<ServerFeature>,
    m: &FeatureSetMember,
    fuel: usize,
    allowed: &mut Vec<String>,
    excluded: &mut Vec<String>,
)
    ensures
        forall|x: Seq<char>|
            #[trigger] in_view(final(allowed)@, x) <==> in_view(old(allowed)@, x) || member_adds(
                sets@,
                feats@,
                *m,
                fuel as nat,
                x,
                true,
            ),
        forall|x: Seq<char>|
            #[trigger] in_view(final(excluded)@, x) <==> in_view(old(excluded)@, x) || member_adds(
                sets@,
                feats@,
                *m,
                fuel as nat,
                x,
                false,
            ),
    decreases fuel, 0nat,
{
    let ghost a0 = allowed@;
    let ghost e0 = excluded@;
    match m.member_type {
        MemberType::Feature => {
            let mut ids: Vec<String> = Vec::new();
            ids.push(m.member_id.clone());
            proof {
                lemma_in_view_concat(a0, ids@);
                lemma_in_view_concat(e0, ids@);
                assert forall|x: Seq<char>| #[trigger] in_view(ids@, x) <==> m.member_id@ == x by {
                    if m.member_id@ == x {
                        assert(ids@[0]@ == x);
                    }
                }
            }
            apply_mode_to_set(m.mode, ids, allowed, excluded);
        },
        MemberType::FeatureSet => {
            match find_set_index(sets, &m.member_id) {
                None => {},
                Some(i) => {
                    let n = &sets[i];
                    match n.feature_set_type {
                        FeatureSetType::All => {
                            let mut ids: Vec<String> = Vec::new();
                            add_feature_ids(feats, None, true, &mut ids);
                            proof {
                                lemma_in_view_concat(a0, ids@);
                                lemma_in_view_concat(e0, ids@);
                                assert forall|x: Seq<char>| !#[trigger] in_view(Seq::<String>::empty(), x) by {}
                            }
                            apply_mode_to_set(m.mode, ids, allowed, excluded);
                        },
                        FeatureSetType::ServerAll => {
                            match &n.server_id {
                                Some(sid) => {
                                    let mut ids: Vec<String> = Vec::new();
                                    add_feature_ids(feats, Some(sid), true, &mut ids);
                                    proof {
                                        lemma_in_view_concat(a0, ids@);
                                        lemma_in_view_concat(e0, ids@);
                                        assert forall|x: Seq<char>| !#[trigger] in_view(Seq::<String>::empty(), x) by {}
                                    }
                                    apply_mode_to_set(m.mode, ids, allowed, excluded);
                                },
                                None => {},
                            }
                        },
                        _ => {
                            if fuel > 0 {
                                resolve_members(sets, feats, &n.members, fuel - 1, allowed, excluded);
                            }
                            proof {
                                assert forall|x: Seq<char>, b: bool|
                                    #[trigger] member_adds(sets@, feats@, *m, fuel as nat, x, b) == (fuel
                                        > 0 && members_add(sets@, feats@, n.members@, (fuel - 1) as nat, x, b)) by {
                                    lemma_nested_member(sets@, feats@, *m, *n, fuel as nat, x, b);
                                }
                            }
                        },
                    }
                },
            }
        },
    }
}

/// Adds the contributions of every member (see `members_add`).
fn resolve_members(
    sets: &Vec<FeatureSet>,
    feats: &Vec<ServerFeature>,
    members: &Vec<FeatureSetMember>,
    fuel: usize,
    allowed: &mut Vec<String>,
    excluded: &mut Vec<String>,
)
    ensures
        forall|x: Seq<char>|
            #[trigger] in_view(final(allowed)@, x) <==> in_view(old(allowed)@, x) || members_add(
                sets@,
                feats@,
                members@,
                fuel as nat,
                x,
                true,
            ),
        forall|x: Seq<char>|
            #[trigger] in_view(final(excluded)@, x) <==> in_view(old(excluded)@, x) || members_add(
                sets@,
                feats@,
                members@,
                fuel as nat,
                x,
                false,
            ),
    decreases fuel, 1nat,
{
    let ghost a0 = allowed@;
    let ghost e0 = excluded@;
    let mut j: usize = 0;
    while j < members.len()
        invariant
            j <= members.len(),
            forall|x: Seq<char>|
                #[trigger] in_view(allowed@, x) <==> in_view(a0, x) || members_add(
                    sets@,
                    feats@,
                    members@.take(j as int),
                    fuel as nat,
                    x,
                    true,
                ),
            forall|x: Seq<char>|
                #[trigger] in_view(excluded@, x) <==> in_view(e0, x) || members_add(
                    sets@,
                    feats@,
                    members@.take(j as int),
                    fuel as nat,
                    x,
                    false,
                ),
        decreases members.len() - j,
    {
        let ghost a1 = allowed@;
        let ghost e1 = excluded@;
        resolve_member(sets, feats, &members[j], fuel, allowed, excluded);
        proof {
            let t = members@.take(j + 1);
            assert(t.drop_last() =~= members@.take(j as int));
            assert(t.last() == members@[j as int]);
        }
        j = j + 1;
    }
    assert(members@.take(members.len() as int) =~= members@);
}

/// Whether some string of `v` has the characters of `x`.
fn contains_id(v: &Vec<String>, x: &String) -> (r: bool)
    ensures
        r == in_view(v@, x@),
{
    let mut i: usize = 0;
    while i < v.len()
        invariant
            i <= v.len(),
            forall|j: int| 0 <= j < i ==> v@[j]@ != x@,
        decreases v.len() - i,
    {
        if same(&v[i], x) {
            return true;
        }
        i = i + 1;
    }
    false
}

/// The granted set with index `k` puts `x` on the chosen list.
pub open spec fn grant_k_adds(
    sets: Seq<FeatureSet>,
    feats: Seq<ServerFeature>,
    ids: Seq<String>,
    fuel: nat,
    k: int,
    x: Seq<char>,
    to_allow: bool,
) -> bool {
    find_set(sets, ids[k]@) matches Some(fs) && grant_adds(sets, feats, fs, fuel, x, to_allow)
}

/// Resolves granted feature-set IDs to the features they grant.
///
/// `all_features` are the space's features, `feature_sets` every set that a
/// granted or nested ID may name (deleted ones are skipped as a lookup by ID
/// skips them). An all set grants every usable feature; otherwise a usable
/// feature is granted when some set includes its ID and none excludes it.
/// Nested default and custom sets are expanded to the depth of the number of
/// sets. `filter_type` keeps only features of that kind.
pub fn resolve_feature_sets(
    all_features: &Vec<ServerFeature>,
    feature_sets: &Vec<FeatureSet>,
    feature_set_ids: &Vec<String>,
    filter_type: Option<FeatureType>,
) -> (r: Vec<ServerFeature>)
    ensures
        r@ == resolved(feature_sets@, all_features@, feature_set_ids@, filter_type),
{
    let ghost sets = feature_sets@;
    let ghost feats = all_features@;
    let ghost ids = feature_set_ids@;
    let fuel = feature_sets.len();
    let ghost gfuel = fuel as nat;
    let mut allowed: Vec<String> = Vec::new();
    let mut excluded: Vec<String> = Vec::new();
    let mut has_all = false;
    for i in 0..feature_set_ids.len()
        invariant
            fuel == feature_sets.len(),
            gfuel == fuel as nat,
            sets == feature_sets@,
            feats == all_features@,
            ids == feature_set_ids@,
            has_all == exists|k: int|
                0 <= k < i && (#[trigger] find_set(sets, ids[k]@) matches Some(fs)
                    && fs.feature_set_type == FeatureSetType::All),
            forall|x: Seq<char>|
                #[trigger] in_view(allowed@, x) <==> exists|k: int|
                    0 <= k < i && #[trigger] grant_k_adds(sets, feats, ids, gfuel, k, x, true),
            forall|x: Seq<char>|
                #[trigger] in_view(excluded@, x) <==> exists|k: int|
                    0 <= k < i && #[trigger] grant_k_adds(sets, feats, ids, gfuel, k, x, false),
    {
        let ghost a1 = allowed@;
        let ghost e1 = excluded@;
        let ghost h1 = has_all;
        match find_set_index(feature_sets, &feature_set_ids[i]) {
            None => {},
            Some(idx) => {
                let fs = &feature_sets[idx];
                match fs.feature_set_type {
                    FeatureSetType::All => {
                        has_all = true;
                    },
                    FeatureSetType::ServerAll => {
                        match &fs.server_id {
                            Some(sid) => {
                                add_feature_ids(all_features, Some(sid), false, &mut allowed);
                            },
                            None => {},
                        }
                    },
                    _ => {
                        resolve_members(feature_sets, all_features, &fs.members, fuel, &mut allowed, &mut excluded);
                    },
                }
            },
        }
        assert forall|x: Seq<char>|
            #[trigger] in_view(allowed@, x) <==> in_view(a1, x) || grant_k_adds(sets, feats, ids, gfuel, i as int, x, true) by {}
        assert forall|x: Seq<char>|
            #[trigger] in_view(excluded@, x) <==> in_view(e1, x) || grant_k_adds(sets, feats, ids, gfuel, i as int, x, false) by {}
        proof {
            assert forall|x: Seq<char>|
                #[trigger] in_view(allowed@, x) <==> exists|k: int|
                    0 <= k < i + 1 && #[trigger] grant_k_adds(sets, feats, ids, gfuel, k, x, true) by {
                if exists|k: int| 0 <= k < i + 1 && #[trigger] grant_k_adds(sets, feats, ids, gfuel, k, x, true) {
                    let k = choose|k: int| 0 <= k < i + 1 && #[trigger] grant_k_adds(sets, feats, ids, gfuel, k, x, true);
                    if k < i {
                        assert(in_view(a1, x));
                    }
                }
                if in_view(a1, x) {}
            }
            assert forall|x: Seq<char>|
                #[trigger] in_view(excluded@, x) <==> exists|k: int|
                    0 <= k < i + 1 && #[trigger] grant_k_adds(sets, feats, ids, gfuel, k, x, false) by {
                if exists|k: int| 0 <= k < i + 1 && #[trigger] grant_k_adds(sets, feats, ids, gfuel, k, x, false) {
                    let k = choose|k: int| 0 <= k < i + 1 && #[trigger] grant_k_adds(sets, feats, ids, gfuel, k, x, false);
                    if k < i {
                        assert(in_view(e1, x));
                    }
                }
                if in_view(e1, x) {}
            }
            if has_all && !h1 {
                assert(find_set(sets, ids[i as int]@) matches Some(fs) && fs.feature_set_type == FeatureSetType::All);
            }
        }
    }
    proof {
        assert forall|x: Seq<char>|
            #[trigger] in_view(allowed@, x) == grants_add(sets, feats, ids, gfuel, x, true) by {
            if grants_add(sets, feats, ids, gfuel, x, true) {
                let k = choose|k: int| 0 <= k < ids.len() && (#[trigger] find_set(sets, ids[k]@) matches Some(fs)
                    && grant_adds(sets, feats, fs, gfuel, x, true));
                assert(grant_k_adds(sets, feats, ids, gfuel, k, x, true));
            }
        }
        assert forall|x: Seq<char>|
            #[trigger] in_view(excluded@, x) == grants_add(sets, feats, ids, gfuel, x, false) by {
            if grants_add(sets, feats, ids, gfuel, x, false) {
                let k = choose|k: int| 0 <= k < ids.len() && (#[trigger] find_set(sets, ids[k]@) matches Some(fs)
                    && grant_adds(sets, feats, fs, gfuel, x, false));
                assert(grant_k_adds(sets, feats, ids, gfuel, k, x, false));
            }
        }
    }
    let ghost pred = selection(sets, feats, ids, filter_type);
    let mut result: Vec<ServerFeature> = Vec::new();
    for i in 0..all_features.len()
        invariant
            sets == feature_sets@,
            feats == all_features@,
            ids == feature_set_ids@,
            gfuel == resolution_fuel(sets),
            pred == selection(sets, feats, ids, filter_type),
            has_all == grants_all(sets, ids),
            forall|x: Seq<char>|
                #[trigger] in_view(allowed@, x) == grants_add(sets, feats, ids, gfuel, x, true),
            forall|x: Seq<char>|
                #[trigger] in_view(excluded@, x) == grants_add(sets, feats, ids, gfuel, x, false),
            result@ == feats.take(i as int).filter(pred),
    {
        let f = &all_features[i];
        let type_ok = match filter_type {
            Some(t) => f.feature_type == t,
            None => true,
        };
        let keep = f.is_available && !f.disabled && (has_all || (contains_id(&allowed, &f.id)
            && !contains_id(&excluded, &f.id))) && type_ok;
        assert(keep == pred(feats[i as int]));
        proof {
            reveal_with_fuel(Seq::filter, 1);
            assert(feats.take(i + 1).drop_last() =~= feats.take(i as int));
        }
        if keep {
            result.push(f.duplicate());
        }
    }
    assert(feats.take(all_features.len() as int) =~= feats);
    result
}

} // verus!

verus! {

proof fn lemma_filter_none<A>(s: Seq<A>, p: spec_fn(A) -> bool)
    requires
        forall|i: int| 0 <= i < s.len() ==> !p(#[trigger] s[i]),
    ensures
        s.filter(p).len() == 0,
    decreases s.len(),
{
    reveal_with_fuel(Seq::filter, 1);
    if s.len() > 0 {
        lemma_filter_none(s.drop_last(), p);
    }
}

/// Every resolved feature is usable (available and not disabled) and of the
/// asked-for kind: a grant never hands out a disabled or vanished feature.
pub proof fn law_resolved_features_are_usable(
    sets: Seq<FeatureSet>,
    feats: Seq<ServerFeature>,
    ids: Seq<String>,
    filter_type: Option<FeatureType>,
    i: int,
)
    requires
        0 <= i < resolved(sets, feats, ids, filter_type).len(),
    ensures
        usable(resolved(sets, feats, ids, filter_type)[i]),
        filter_type matches Some(t) ==> resolved(sets, feats, ids, filter_type)[i].feature_type == t,
{
    feats.lemma_filter_pred(selection(sets, feats, ids, filter_type), i);
}

/// A granted all set hands out every usable feature of the asked-for kind.
pub proof fn law_all_grant_gives_every_usable_feature(
    sets: Seq<FeatureSet>,
    feats: Seq<ServerFeature>,
    ids: Seq<String>,
    filter_type: Option<FeatureType>,
    i: int,
)
    requires
        grants_all(sets, ids),
        0 <= i < feats.len(),
        usable(feats[i]),
        filter_type matches Some(t) ==> feats[i].feature_type == t,
    ensures
        resolved(sets, feats, ids, filter_type).contains(feats[i]),
{
    feats.lemma_filter_contains(selection(sets, feats, ids, filter_type), i);
}

/// Without an all set, exclusion wins: a feature whose ID some granted set
/// excludes is not handed out, whatever else includes it.
pub proof fn law_exclusion_wins(
    sets: Seq<FeatureSet>,
    feats: Seq<ServerFeature>,
    ids: Seq<String>,
    filter_type: Option<FeatureType>,
    f: ServerFeature,
)
    requires
        !grants_all(sets, ids),
        grants_add(sets, feats, ids, resolution_fuel(sets), f.id@, false),
    ensures
        !resolved(sets, feats, ids, filter_type).contains(f),
{
    let r = resolved(sets, feats, ids, filter_type);
    if r.contains(f) {
        let j = choose|j: int| 0 <= j < r.len() && r[j] == f;
        feats.lemma_filter_pred(selection(sets, feats, ids, filter_type), j);
    }
}

/// Without an all set, only features whose ID some granted set includes are
/// handed out; with no grants at all nothing is (secure by default).
pub proof fn law_only_included_features(
    sets: Seq<FeatureSet>,
    feats: Seq<ServerFeature>,
    ids: Seq<String>,
    filter_type: Option<FeatureType>,
    f: ServerFeature,
)
    requires
        !grants_all(sets, ids),
        !grants_add(sets, feats, ids, resolution_fuel(sets), f.id@, true),
    ensures
        !resolved(sets, feats, ids, filter_type).contains(f),
{
    let r = resolved(sets, feats, ids, filter_type);
    if r.contains(f) {
        let j = choose|j: int| 0 <= j < r.len() && r[j] == f;
        feats.lemma_filter_pred(selection(sets, feats, ids, filter_type), j);
    }
}

/// Granting no feature sets hands out no features.
pub proof fn law_no_grants_no_features(
    sets: Seq<FeatureSet>,
    feats: Seq<ServerFeature>,
    filter_type: Option<FeatureType>,
)
    ensures
        resolved(sets, feats, Seq::<String>::empty(), filter_type).len() == 0,
{
    let ids = Seq::<String>::empty();
    assert forall|i: int| 0 <= i < feats.len() implies !selection(sets, feats, ids, filter_type)(
        #[trigger] feats[i],
    ) by {}
    lemma_filter_none(feats, selection(sets, feats, ids, filter_type));
}

} // verus!

verus! {

/// A usable feature of the asked-for kind whose ID some granted set includes
/// and none excludes is handed out.
pub proof fn law_included_feature_is_granted(
    sets: Seq<FeatureSet>,
    feats: Seq<ServerFeature>,
    ids: Seq<String>,
    filter_type: Option<FeatureType>,
    i: int,
)
    requires
        0 <= i < feats.len(),
        usable(feats[i]),
        filter_type matches Some(t) ==> feats[i].feature_type == t,
        grants_add(sets, feats, ids, resolution_fuel(sets), feats[i].id@, true),
        !grants_add(sets, feats, ids, resolution_fuel(sets), feats[i].id@, false),
    ensures
        resolved(sets, feats, ids, filter_type).contains(feats[i]),
{
    feats.lemma_filter_contains(selection(sets, feats, ids, filter_type), i);
}

/// Every granted set that exists is a server-all set for server `s`.
pub open spec fn grants_only_server_all(sets: Seq<FeatureSet>, ids: Seq<String>, s: Seq<char>) -> bool {
    forall|k: int|
        0 <= k < ids.len() ==> match #[trigger] find_set(sets, ids[k]@) {
            Some(fs) => fs.feature_set_type == FeatureSetType::ServerAll && match fs.server_id {
                Some(sid) => sid@ == s,
                None => false,
            },
            None => true,
        }
}

/// No two features share an ID.
pub open spec fn feature_ids_distinct(feats: Seq<ServerFeature>) -> bool {
    forall|a: int, b: int| 0 <= a < b < feats.len() ==> feats[a].id@ != feats[b].id@
}

/// Granting server-all sets of one server `s` offers only features of that
/// server: every resolved feature has server ID `s`.
pub proof fn law_server_all_grant_offers_only_its_server(
    sets: Seq<FeatureSet>,
    feats: Seq<ServerFeature>,
    ids: Seq<String>,
    filter_type: Option<FeatureType>,
    s: Seq<char>,
    i: int,
)
    requires
        grants_only_server_all(sets, ids, s),
        feature_ids_distinct(feats),
        0 <= i < resolved(sets, feats, ids, filter_type).len(),
    ensures
        resolved(sets, feats, ids, filter_type)[i].server_id@ == s,
{
    let pred = selection(sets, feats, ids, filter_type);
    let r = resolved(sets, feats, ids, filter_type);
    let f = r[i];
    feats.lemma_filter_pred(pred, i);
    assert(r.contains(f));
    feats.lemma_filter_contains_rev(pred, f);
    let i2 = choose|i2: int| 0 <= i2 < feats.len() && feats[i2] == f;
    if grants_all(sets, ids) {
        let k = choose|k: int|
            0 <= k < ids.len() && (#[trigger] find_set(sets, ids[k]@) matches Some(fs) && fs.feature_set_type
                == FeatureSetType::All);
        assert(find_set(sets, ids[k]@) is Some);
    }
    let fuel = resolution_fuel(sets);
    assert(grants_add(sets, feats, ids, fuel, f.id@, true));
    let k = choose|k: int|
        0 <= k < ids.len() && (#[trigger] find_set(sets, ids[k]@) matches Some(fs) && grant_adds(
            sets,
            feats,
            fs,
            fuel,
            f.id@,
            true,
        ));
    let fs = find_set(sets, ids[k]@)->0;
    assert(fs.feature_set_type == FeatureSetType::ServerAll);
    assert(some_feature_id(feats, Some(fs.server_id->0@), false, f.id@));
    let j = choose|j: int|
        0 <= j < feats.len() && feature_matches(feats[j], Some(fs.server_id->0@), false) && #[trigger] feats[j].id@
            == f.id@;
    if j != i2 {
        if j < i2 {
            assert(feats[j].id@ != feats[i2].id@);
        } else {
            assert(feats[i2].id@ != feats[j].id@);
        }
    }
}

/// Granting a server-all set of server `s` offers every usable feature of
/// that server (of the asked-for kind) that no granted set excludes.
pub proof fn law_server_all_grant_offers_its_server(
    sets: Seq<FeatureSet>,
    feats: Seq<ServerFeature>,
    ids: Seq<String>,
    filter_type: Option<FeatureType>,
    k: int,
    i: int,
)
    requires
        0 <= k < ids.len(),
        find_set(sets, ids[k]@) matches Some(fs) && fs.feature_set_type == FeatureSetType::ServerAll,
        find_set(sets, ids[k]@)->0.server_id matches Some(sid) && 0 <= i < feats.len() && feats[i].server_id@ == sid@,
        usable(feats[i]),
        filter_type matches Some(t) ==> feats[i].feature_type == t,
        !grants_add(sets, feats, ids, resolution_fuel(sets), feats[i].id@, false),
    ensures
        resolved(sets, feats, ids, filter_type).contains(feats[i]),
{
    let fs = find_set(sets, ids[k]@)->0;
    assert(feature_matches(feats[i], Some(fs.server_id->0@), false));
    assert(some_feature_id(feats, Some(fs.server_id->0@), false, feats[i].id@));
    assert(grant_adds(sets, feats, fs, resolution_fuel(sets), feats[i].id@, true));
    assert(grants_add(sets, feats, ids, resolution_fuel(sets), feats[i].id@, true));
    feats.lemma_filter_contains(selection(sets, feats, ids, filter_type), i);
}

/// Enriches resolved features with their servers' prefixes: feature `i`
/// gets `prefixes[i]`, the prefix the space's prefix cache gives for its
/// server, as its server alias; nothing else changes.
pub fn with_server_prefixes(features: &Vec<ServerFeature>, prefixes: &Vec<String>) -> (r: Vec<ServerFeature>)
    requires
        prefixes@.len() == features@.len(),
    ensures
        r@.len() == features@.len(),
        forall|i: int|
            0 <= i < r@.len() ==> #[trigger] r@[i] == (ServerFeature {
                server_alias: Some(prefixes@[i]),
                ..features@[i]
            }),
{
    let mut r: Vec<ServerFeature> = Vec::new();
    let mut i: usize = 0;
    while i < features.len()
        invariant
            i <= features@.len(),
            prefixes@.len() == features@.len(),
            r@.len() == i,
            forall|k: int|
                0 <= k < i ==> #[trigger] r@[k] == (ServerFeature {
                    server_alias: Some(prefixes@[k]),
                    ..features@[k]
                }),
        decreases features@.len() - i,
    {
        let f = features[i].duplicate().with_server_alias(Some(prefixes[i].clone()));
        r.push(f);
        i = i + 1;
    }
    r
}

} // verus!
