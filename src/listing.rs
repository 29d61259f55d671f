//! The active pointer and the listing of what the store holds.
use vstd::prelude::*;
use vstd::string::*;
use crate::text::{is_prefix, strip_prefix};
use crate::store::{alias_link_name, artifact_name, names_view};
use crate::version::{
    SpecialVer, VerSelection, canonical_name_of, parse_version, semver_parse, special_from,
    special_of, version_text,
};

verus! {

/// The text after `surreal-`, or the whole text where it lacks that prefix.
pub open spec fn after_binary_prefix(n: Seq<char>) -> Seq<char> {
    if is_prefix("surreal-"@, n) {
        n.subrange(8, n.len() as int)
    } else {
        n
    }
}

/// The canonical name of the selection that the active pointer's target
/// file name denotes; `None` where it denotes no version (the `none`
/// placeholder) or cannot be read.
pub open spec fn active_name_of(target: Seq<char>) -> Option<Seq<char>> {
    let body = after_binary_prefix(target);
    if special_of(body) == Some(SpecialVer::NoVersion) {
        None
    } else {
        canonical_name_of(body)
    }
}

/// The file name that the active pointer is made to point at to select
/// `sel`: the alias link for a tag (the placeholder for `none`), the
/// artifact for an explicit version.
pub open spec fn active_target_of(sel: &VerSelection) -> Seq<char> {
    match sel {
        VerSelection::Special(t) => alias_link_name(*t),
        VerSelection::Custom(v) => artifact_name(v.parts()),
    }
}

/// The reserved tag that a store entry is the alias link of, if any.
pub open spec fn entry_tag(n: Seq<char>) -> Option<SpecialVer> {
    if is_prefix("surreal-"@, n) {
        special_of(n.subrange(8, n.len() as int))
    } else {
        None
    }
}

/// The canonical name of the version that a store entry is the artifact of,
/// if it is one.
pub open spec fn entry_version(n: Seq<char>) -> Option<Seq<char>> {
    if is_prefix("surreal-v"@, n) {
        match semver_parse(n.subrange(9, n.len() as int)) {
            Some(p) => Some("v"@ + version_text(p)),
            None => None,
        }
    } else {
        None
    }
}

/// The tags in listing order.
pub open spec fn tag_at(i: int) -> SpecialVer {
    if i == 0 {
        SpecialVer::NoVersion
    } else if i == 1 {
        SpecialVer::Latest
    } else if i == 2 {
        SpecialVer::Beta
    } else if i == 3 {
        SpecialVer::Alpha
    } else {
        SpecialVer::Nightly
    }
}

/// Whether some entry is the alias link of `t`.
pub open spec fn has_tag(names: Seq<Seq<char>>, t: SpecialVer) -> bool {
    exists|j: int| 0 <= j < names.len() && entry_tag(#[trigger] names[j]) == Some(t)
}

/// A row of the listing: a canonical name, and whether it is the active one.
pub open spec fn row(name: Seq<char>, active: Option<Seq<char>>) -> (Seq<char>, bool) {
    (name, active == Some(name))
}

/// The alias rows of the first `k` tags, in tag order.
pub open spec fn alias_rows(names: Seq<Seq<char>>, k: int, active: Option<Seq<char>>) -> Seq<
    (Seq<char>, bool),
>
    decreases k,
{
    if k <= 0 {
        Seq::empty()
    } else {
        alias_rows(names, k - 1, active) + if has_tag(names, tag_at(k - 1)) {
            seq![row(tag_at(k - 1).name(), active)]
        } else {
            Seq::empty()
        }
    }
}

/// The version rows, in the order their entries come.
pub open spec fn version_rows(names: Seq<Seq<char>>, active: Option<Seq<char>>) -> Seq<
    (Seq<char>, bool),
>
    decreases names.len(),
{
    if names.len() == 0 {
        Seq::empty()
    } else {
        version_rows(names.drop_last(), active) + match entry_version(names.last()) {
            Some(n) => seq![row(n, active)],
            None => Seq::empty(),
        }
    }
}

/// The listing of a store: alias rows in tag order, then version rows in
/// the order their entries come; every other entry is left out.
pub open spec fn listing(names: Seq<Seq<char>>, active: Option<Seq<char>>) -> Seq<
    (Seq<char>, bool),
> {
    alias_rows(names, 5, active) + version_rows(names, active)
}

pub open spec fn opt_view(o: Option<String>) -> Option<Seq<char>> {
    match o {
        Some(s) => Some(s@),
        None => None,
    }
}

/// One line of the listing.
pub struct ListRow {
    pub name: String,
    pub active: bool,
}

pub open spec fn rows_view(rows: Seq<ListRow>) -> Seq<(Seq<char>, bool)> {
    rows.map_values(|r: ListRow| (r.name@, r.active))
}

/// The file name that the active pointer should point at to select `sel`.
pub fn active_target(sel: &VerSelection) -> (r: String)
    ensures
        r@ == active_target_of(sel),
{
    match sel {
        VerSelection::Special(t) => crate::store::alias_file_name(*t),
        VerSelection::Custom(v) => crate::store::artifact_file_name(v),
    }
}

/// The canonical name of what the active pointer selects, from the file
/// name it points at.
pub fn active_name(target: &str) -> (r: Option<String>)
    ensures
        opt_view(r) == active_name_of(target@),
{
    let body = match strip_prefix(target, "surreal-") {
        Some(b) => b,
        None => target,
    };
    proof {
        reveal_strlit("surreal-");
    }
    match VerSelection::parse(body) {
        Ok(VerSelection::Special(SpecialVer::NoVersion)) => None,
        Ok(sel) => Some(sel.to_sname()),
        Err(_) => None,
    }
}

/// The alias tag of a store entry, if it is an alias link.
fn entry_tag_of(n: &str) -> (r: Option<SpecialVer>)
    ensures
        r == entry_tag(n@),
{
    proof {
        reveal_strlit("surreal-");
    }
    match strip_prefix(n, "surreal-") {
        Some(rest) => special_from(rest),
        None => None,
    }
}

/// The canonical name of the version a store entry holds, if it is an
/// artifact.
fn entry_version_of(n: &str) -> (r: Option<String>)
    ensures
        opt_view(r) == entry_version(n@),
{
    proof {
        reveal_strlit("surreal-v");
    }
    match strip_prefix(n, "surreal-v") {
        Some(rest) => match parse_version(rest) {
            Some(v) => Some(String::from_str("v").concat(v.to_text().as_str())),
            None => None,
        },
        None => None,
    }
}

fn tag_in_order(i: usize) -> (r: SpecialVer)
    ensures
        r == tag_at(i as int),
{
    if i == 0 {
        SpecialVer::NoVersion
    } else if i == 1 {
        SpecialVer::Latest
    } else if i == 2 {
        SpecialVer::Beta
    } else if i == 3 {
        SpecialVer::Alpha
    } else {
        SpecialVer::Nightly
    }
}

fn store_has_tag(names: &Vec<String>, t: SpecialVer) -> (r: bool)
    ensures
        r == has_tag(names_view(names@), t),
{
    let mut i: usize = 0;
    while i < names.len()
        invariant
            i <= names.len(),
            forall|j: int| 0 <= j < i ==> entry_tag(names@[j]@) != Some(t),
        decreases names.len() - i,
    {
        if entry_tag_of(names[i].as_str()) == Some(t) {
            assert(names_view(names@)[i as int] == names@[i as int]@);
            return true;
        }
        i = i + 1;
    }
    assert forall|j: int| 0 <= j < names_view(names@).len() implies entry_tag(
        #[trigger] names_view(names@)[j],
    ) != Some(t) by {
        assert(names_view(names@)[j] == names@[j]@);
    }
    false
}

fn is_active(name: &String, active: &Option<String>) -> (r: bool)
    ensures
        r == (opt_view(*active) == Some(name@)),
{
    match active {
        Some(a) => crate::text::eq_str(a.as_str(), name.as_str()),
        None => false,
    }
}

/// The listing of a store whose entries are `names`, in the order the
/// directory gave them, where `active` is the canonical name the active
/// pointer resolves to.
pub fn list_rows(names: &Vec<String>, active: &Option<String>) -> (r: Vec<ListRow>)
    ensures
        rows_view(r@) == listing(names_view(names@), opt_view(*active)),
{
    let ghost nv = names_view(names@);
    let ghost act = opt_view(*active);
    let mut rows: Vec<ListRow> = Vec::new();
    let mut k: usize = 0;
    while k < 5
        invariant
            k <= 5,
            nv == names_view(names@),
            act == opt_view(*active),
            rows_view(rows@) == alias_rows(nv, k as int, act),
        decreases 5 - k,
    {
        let t = tag_in_order(k);
        if store_has_tag(names, t) {
            let name = String::from_str(t.to_name());
            let a = is_active(&name, active);
            let ghost before = rows@;
            rows.push(ListRow { name, active: a });
            assert(rows_view(rows@) =~= rows_view(before) + seq![row(t.name(), act)]);
        } else {
            assert(rows_view(rows@) =~= alias_rows(nv, k as int, act) + Seq::empty());
        }
        k = k + 1;
    }
    let ghost alias_part = rows_view(rows@);
    let mut i: usize = 0;
    while i < names.len()
        invariant
            i <= names.len(),
            nv == names_view(names@),
            act == opt_view(*active),
            alias_part == alias_rows(nv, 5, act),
            rows_view(rows@) == alias_part + version_rows(nv.subrange(0, i as int), act),
        decreases names.len() - i,
    {
        let ghost prefix = nv.subrange(0, i as int + 1);
        assert(prefix.drop_last() =~= nv.subrange(0, i as int));
        assert(prefix.last() == names@[i as int]@);
        let ghost before = rows@;
        match entry_version_of(names[i].as_str()) {
            Some(name) => {
                let a = is_active(&name, active);
                rows.push(ListRow { name, active: a });
                assert(rows_view(rows@) =~= rows_view(before) + seq![row(rows@.last().name@, act)]);
            },
            None => {
                assert(rows_view(rows@) =~= rows_view(before) + Seq::empty());
            },
        }
        i = i + 1;
    }
    assert(nv.subrange(0, names.len() as int) =~= nv);
    rows
}

} // verus!
