use surrealvm::listing::{active_name, active_target, list_rows, ListRow};
use surrealvm::store::{contains_name, plan_install, InstallPlan};
use surrealvm::version::{SemVer, SpecialVer, VerSelection};

fn names(v: &[&str]) -> Vec<String> {
    v.iter().map(|s| s.to_string()).collect()
}

fn version(s: &str) -> SemVer {
    match VerSelection::parse(s).ok().unwrap() {
        VerSelection::Custom(v) => v,
        VerSelection::Special(_) => panic!("not a version"),
    }
}

fn rows(r: &[ListRow]) -> Vec<(String, bool)> {
    r.iter().map(|r| (r.name.clone(), r.active)).collect()
}

fn plan(store: &[String], tag: Option<SpecialVer>, v: &SemVer, allow: bool) -> InstallPlan {
    plan_install(&store.to_vec(), tag, v, "linux", "amd64", allow).ok().expect("plan")
}

/// The store after `p` is carried out, as its directory would list it.
fn apply(store: &mut Vec<String>, p: &InstallPlan) {
    let mut add = |n: &String| {
        if !store.contains(n) {
            store.push(n.clone());
        }
    };
    if p.download.is_some() {
        add(&p.artifact);
    }
    if let Some(u) = &p.unqualified_link {
        add(u);
    }
    if let Some(a) = &p.alias_link {
        add(a);
    }
}

#[test]
fn first_install_of_a_version() {
    let p = plan(&[], None, &version("1.2.3"), false);
    let d = p.download.as_ref().expect("downloads");
    assert_eq!(d.url, "https://download.surrealdb.com/v1.2.3/surreal-v1.2.3.linux-amd64.tgz");
    assert_eq!(d.archive, "surreal-v1.2.3.tgz");
    assert_eq!(d.staging, "tmp_surreal-v1.2.3");
    assert_eq!(p.artifact, "surreal-v1.2.3");
    assert_eq!(p.unqualified_link.as_deref(), Some("surreal-1.2.3"));
    assert_eq!(p.alias_link, None);
}

#[test]
fn install_through_a_tag_links_the_alias() {
    let p = plan(&[], Some(SpecialVer::Latest), &version("2.0.1"), false);
    assert_eq!(p.alias_link.as_deref(), Some("surreal-latest"));
    assert_eq!(p.artifact, "surreal-v2.0.1");
}

#[test]
fn installed_version_is_not_fetched_again() {
    let v = version("1.2.3");
    let mut store = names(&["surreal", "surreal-none", "surrealvm"]);
    let first = plan(&store, None, &v, false);
    assert!(first.download.is_some());
    apply(&mut store, &first);
    let second = plan(&store, None, &v, true);
    assert!(second.download.is_none());
    assert!(second.unqualified_link.is_none());
    assert_eq!(second.artifact, first.artifact);
}

#[test]
fn installing_an_installed_version_is_an_error_by_default() {
    let store = names(&["surreal-v1.2.3", "surreal-1.2.3"]);
    let r = plan_install(&store, None, &version("1.2.3"), "linux", "amd64", false);
    assert!(r.is_err());
    let p = plan(&store, Some(SpecialVer::Alpha), &version("1.2.3"), true);
    assert!(p.download.is_none());
    assert_eq!(p.alias_link.as_deref(), Some("surreal-alpha"));
}

#[test]
fn listing_puts_aliases_first_and_marks_the_active_one() {
    let store = names(&["surreal-v1.0.0", "surreal-v1.1.0", "surreal-latest"]);
    let active = active_name("surreal-latest");
    assert_eq!(active.as_deref(), Some("latest"));
    let r = list_rows(&store, &active);
    assert_eq!(
        rows(&r),
        vec![
            ("latest".to_string(), true),
            ("v1.0.0".to_string(), false),
            ("v1.1.0".to_string(), false)
        ]
    );
}

#[test]
fn listing_orders_aliases_by_tag_and_skips_other_entries() {
    let store = names(&[
        "surreal-nightly",
        "surreal-v2.0.0",
        "surreal-2.0.0",
        "surreal-v2.0.0.tgz",
        "tmp_surreal-v3.0.0",
        "surreal-alpha",
        "surreal",
        "surrealvm",
        "surreal-none",
    ]);
    let active = active_name("surreal-v2.0.0");
    let r = list_rows(&store, &active);
    assert_eq!(
        rows(&r),
        vec![
            ("none".to_string(), false),
            ("alpha".to_string(), false),
            ("nightly".to_string(), false),
            ("v2.0.0".to_string(), true)
        ]
    );
}

#[test]
fn latest_row_after_install_is_active_only_when_selected() {
    let mut store = names(&["surreal", "surreal-none", "surrealvm"]);
    let p = plan(&store, Some(SpecialVer::Latest), &version("2.1.0"), false);
    apply(&mut store, &p);
    let unselected = list_rows(&store, &active_name("surreal-none"));
    assert!(rows(&unselected).contains(&("latest".to_string(), false)));
    let target = active_target(&VerSelection::parse("latest").ok().unwrap());
    assert_eq!(target, "surreal-latest");
    let selected = list_rows(&store, &active_name(&target));
    assert!(rows(&selected).contains(&("latest".to_string(), true)));
    assert!(rows(&selected).contains(&("v2.1.0".to_string(), false)));
}

#[test]
fn selecting_none_marks_no_row() {
    let target = active_target(&VerSelection::parse("none").ok().unwrap());
    assert_eq!(target, "surreal-none");
    assert_eq!(active_name(&target), None);
    let store = names(&["surreal-none", "surreal-v1.0.0", "surreal-latest"]);
    let r = list_rows(&store, &active_name(&target));
    assert!(r.iter().all(|row| !row.active));
    assert_eq!(r.len(), 3);
}

#[test]
fn unreadable_active_pointer_marks_no_row() {
    assert_eq!(active_name("surrealvm"), None);
    assert_eq!(active_name("surreal-garbage"), None);
    let r = list_rows(&names(&["surreal-v1.0.0"]), &None);
    assert_eq!(rows(&r), vec![("v1.0.0".to_string(), false)]);
}

#[test]
fn active_target_of_an_explicit_version() {
    let sel = VerSelection::parse("v0.9.1").ok().unwrap();
    assert_eq!(active_target(&sel), "surreal-v0.9.1");
    assert_eq!(active_name("surreal-v0.9.1").as_deref(), Some("v0.9.1"));
}

#[test]
fn store_lookup_by_name() {
    let store = names(&["a", "surreal-v1.0.0"]);
    assert!(contains_name(&store, "surreal-v1.0.0"));
    assert!(!contains_name(&store, "surreal-v1.0"));
}
