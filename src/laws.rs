//! Properties that relate several operations of the library.
use vstd::prelude::*;
use crate::listing::{
    active_name_of, active_target_of, alias_rows, entry_tag, entry_version, has_tag, listing, row, tag_at,
    version_rows,
};
use crate::store::{add_name, alias_link_name, installed_store, needs_download, artifact_name};
use crate::version::{
    SpecialVer, VerSelection, VersionParts, canonical_name_of, semver_parse, special_of,
    version_body, version_text,
};

verus! {

/// An explicit version is named by `v` followed by the canonical text of the
/// version it parses to, whatever `v`s and surrounding whitespace it was
/// written with.
pub proof fn lemma_version_canonical_name(s: Seq<char>)
    requires
        special_of(s) is None,
        semver_parse(version_body(s)) is Some,
    ensures
        canonical_name_of(s) == Some("v"@ + version_text(semver_parse(version_body(s))->0)),
{
}

/// Every reserved tag but `beta` reads back as itself and is named by its
/// own text. (`beta` is named `leta`.)
pub proof fn lemma_tag_round_trip(t: SpecialVer)
    requires
        t != SpecialVer::Beta,
    ensures
        special_of(t.name()) == Some(t),
        canonical_name_of(t.name()) == Some(t.name()),
{
    reveal_strlit("none");
    reveal_strlit("latest");
    reveal_strlit("beta");
    reveal_strlit("alpha");
    reveal_strlit("nightly");
    match t {
        SpecialVer::NoVersion => {},
        SpecialVer::Latest => {
            assert("latest"@.len() == 6 && "none"@.len() == 4);
        },
        SpecialVer::Beta => {},
        SpecialVer::Alpha => {
            assert("alpha"@.len() == 5 && "none"@.len() == 4 && "latest"@.len() == 6);
            assert("alpha"@[0] != "beta"@[0]);
        },
        SpecialVer::Nightly => {
            assert("nightly"@.len() == 7 && "none"@.len() == 4 && "latest"@.len() == 6);
            assert("beta"@.len() == 4 && "alpha"@.len() == 5);
        },
    }
}

/// Once a version is installed, installing it again downloads nothing: the
/// first install is the only one that fetches.
pub proof fn lemma_install_idempotent(
    names: Seq<Seq<char>>,
    tag: Option<SpecialVer>,
    v: VersionParts,
)
    ensures
        !needs_download(installed_store(names, tag, v), v),
{
    let a = artifact_name(v);
    let s1 = if needs_download(names, v) {
        add_name(add_name(names, a), crate::store::unqualified_name(v))
    } else {
        names
    };
    lemma_add_name_keeps(names, a, a);
    lemma_add_name_keeps(add_name(names, a), crate::store::unqualified_name(v), a);
    match tag {
        Some(t) => lemma_add_name_keeps(s1, alias_link_name(t), a),
        None => {},
    }
}

proof fn lemma_add_name_keeps(names: Seq<Seq<char>>, n: Seq<char>, m: Seq<char>)
    requires
        names.contains(m) || n == m,
    ensures
        add_name(names, n).contains(m),
{
    if !names.contains(n) {
        if n == m {
            assert(names.push(n)[names.len() as int] == m);
        } else {
            let j = choose|j: int| 0 <= j < names.len() && names[j] == m;
            assert(names.push(n)[j] == m);
        }
    }
}

proof fn lemma_latest_entry()
    ensures
        entry_tag(alias_link_name(SpecialVer::Latest)) == Some(SpecialVer::Latest),
{
    reveal_strlit("surreal-");
    reveal_strlit("latest");
    reveal_strlit("none");
    let n = alias_link_name(SpecialVer::Latest);
    assert(n.subrange(0, 8) =~= "surreal-"@);
    assert(n.subrange(8, n.len() as int) =~= "latest"@);
}

proof fn lemma_alias_rows_grow(names: Seq<Seq<char>>, k: int, j: int, active: Option<Seq<char>>)
    requires
        0 <= j < k,
        has_tag(names, tag_at(j)),
    ensures
        alias_rows(names, k, active).contains(row(tag_at(j).name(), active)),
    decreases k,
{
    let prev = alias_rows(names, k - 1, active);
    let extra = if has_tag(names, tag_at(k - 1)) {
        seq![row(tag_at(k - 1).name(), active)]
    } else {
        Seq::empty()
    };
    assert(alias_rows(names, k, active) == prev + extra);
    if j == k - 1 {
        assert((prev + extra)[prev.len() as int] == row(tag_at(j).name(), active));
    } else {
        lemma_alias_rows_grow(names, k - 1, j, active);
        let i = choose|i: int| 0 <= i < prev.len() && prev[i] == row(tag_at(j).name(), active);
        assert((prev + extra)[i] == prev[i]);
    }
}

/// After `latest` is installed, the listing shows a `latest` row, and marks
/// it active exactly when the active pointer resolves to `latest`, which is
/// what selecting `latest` makes it do.
pub proof fn lemma_latest_listed(names: Seq<Seq<char>>, v: VersionParts, active: Option<Seq<char>>)
    ensures
        listing(installed_store(names, Some(SpecialVer::Latest), v), active).contains(
            ("latest"@, active == Some("latest"@)),
        ),
        active_name_of(active_target_of(&VerSelection::Special(SpecialVer::Latest))) == Some(
            "latest"@,
        ),
{
    let s2 = installed_store(names, Some(SpecialVer::Latest), v);
    let s1 = if needs_download(names, v) {
        add_name(add_name(names, artifact_name(v)), crate::store::unqualified_name(v))
    } else {
        names
    };
    let n = alias_link_name(SpecialVer::Latest);
    lemma_add_name_keeps(s1, n, n);
    let j = choose|j: int| 0 <= j < s2.len() && s2[j] == n;
    lemma_latest_entry();
    assert(entry_tag(s2[j]) == Some(SpecialVer::Latest));
    assert(has_tag(s2, tag_at(1)));
    lemma_alias_rows_grow(s2, 5, 1, active);
    let a = alias_rows(s2, 5, active);
    let i = choose|i: int| 0 <= i < a.len() && a[i] == row(tag_at(1).name(), active);
    assert(listing(s2, active)[i] == a[i]);
    reveal_strlit("surreal-");
    reveal_strlit("latest");
    reveal_strlit("none");
    assert(n.subrange(0, 8) =~= "surreal-"@);
    assert(n.subrange(8, n.len() as int) =~= "latest"@);
}

proof fn lemma_no_active_alias_rows(names: Seq<Seq<char>>, k: int)
    ensures
        forall|i: int|
            0 <= i < alias_rows(names, k, None).len() ==> !(#[trigger] alias_rows(
                names,
                k,
                None,
            )[i]).1,
    decreases k,
{
    if k > 0 {
        lemma_no_active_alias_rows(names, k - 1);
        let prev = alias_rows(names, k - 1, None);
        let extra = if has_tag(names, tag_at(k - 1)) {
            seq![row(tag_at(k - 1).name(), None)]
        } else {
            Seq::empty()
        };
        assert(alias_rows(names, k, None) == prev + extra);
        assert forall|i: int| 0 <= i < (prev + extra).len() implies !(#[trigger] (prev
            + extra)[i]).1 by {
            if i >= prev.len() {
                assert((prev + extra)[i] == extra[i - prev.len()]);
            }
        }
    }
}

proof fn lemma_no_active_version_rows(names: Seq<Seq<char>>)
    ensures
        forall|i: int|
            0 <= i < version_rows(names, None).len() ==> !(#[trigger] version_rows(
                names,
                None,
            )[i]).1,
    decreases names.len(),
{
    if names.len() > 0 {
        lemma_no_active_version_rows(names.drop_last());
        let prev = version_rows(names.drop_last(), None);
        let extra = match entry_version(names.last()) {
            Some(n) => seq![row(n, None)],
            None => Seq::<(Seq<char>, bool)>::empty(),
        };
        assert(version_rows(names, None) == prev + extra);
        assert forall|i: int| 0 <= i < (prev + extra).len() implies !(#[trigger] (prev
            + extra)[i]).1 by {
            if i >= prev.len() {
                assert((prev + extra)[i] == extra[i - prev.len()]);
            }
        }
    }
}

/// Selecting `none` leaves no version active: the listing then marks no row.
pub proof fn lemma_none_marks_nothing(names: Seq<Seq<char>>)
    ensures
        active_name_of(active_target_of(&VerSelection::Special(SpecialVer::NoVersion))) is None,
        forall|i: int| 0 <= i < listing(names, None).len() ==> !(#[trigger] listing(names, None)[i]).1,
{
    reveal_strlit("surreal-");
    reveal_strlit("none");
    let n = alias_link_name(SpecialVer::NoVersion);
    assert(n.subrange(0, 8) =~= "surreal-"@);
    assert(n.subrange(8, n.len() as int) =~= "none"@);
    lemma_no_active_alias_rows(names, 5);
    lemma_no_active_version_rows(names);
    let a = alias_rows(names, 5, None);
    assert forall|i: int| 0 <= i < listing(names, None).len() implies !(#[trigger] listing(names, None)[i]).1 by {
        if i < a.len() {
            assert(listing(names, None)[i] == a[i]);
        } else {
            assert(listing(names, None)[i] == version_rows(names, None)[i - a.len()]);
        }
    }
}

} // verus!
