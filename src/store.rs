//! The store directory: how its entries are named, and what an install does
//! to it.
use vstd::prelude::*;
use vstd::string::*;
use crate::error::SVMError;
use crate::text::eq_str;
use crate::version::{SemVer, SpecialVer, VersionParts, version_text};

verus! {

/// The names in a directory listing, as text.
pub open spec fn names_view(v: Seq<String>) -> Seq<Seq<char>> {
    v.map_values(|s: String| s@)
}

/// The installed binary of a version: `surreal-v<version>`.
pub open spec fn artifact_name(v: VersionParts) -> Seq<char> {
    "surreal-v"@ + version_text(v)
}

/// The convenience link of a version: `surreal-<version>`.
pub open spec fn unqualified_name(v: VersionParts) -> Seq<char> {
    "surreal-"@ + version_text(v)
}

/// The downloaded archive, removed once extracted: `surreal-v<version>.tgz`.
pub open spec fn archive_name(v: VersionParts) -> Seq<char> {
    artifact_name(v) + ".tgz"@
}

/// The extraction staging directory, removed once emptied.
pub open spec fn staging_name(v: VersionParts) -> Seq<char> {
    "tmp_"@ + artifact_name(v)
}

/// The link that stands for a reserved tag: `surreal-<tag name>`.
pub open spec fn alias_link_name(t: SpecialVer) -> Seq<char> {
    "surreal-"@ + t.name()
}

/// Where the release archive of a version is downloaded from.
pub open spec fn download_url(v: VersionParts, os: Seq<char>, cpu: Seq<char>) -> Seq<char> {
    "https://download.surrealdb.com/v"@ + version_text(v) + "/surreal-v"@ + version_text(v)
        + "."@ + os + "-"@ + cpu + ".tgz"@
}

/// Where the version that a reserved tag currently stands for is published.
pub open spec fn alias_url(t: SpecialVer) -> Seq<char> {
    "https://download.surrealdb.com/"@ + t.name() + ".txt"@
}

/// `names` with `n` added at the end, where it is not there yet.
pub open spec fn add_name(names: Seq<Seq<char>>, n: Seq<char>) -> Seq<Seq<char>> {
    if names.contains(n) {
        names
    } else {
        names.push(n)
    }
}

/// Whether installing `v` into a store holding `names` downloads anything.
pub open spec fn needs_download(names: Seq<Seq<char>>, v: VersionParts) -> bool {
    !names.contains(artifact_name(v))
}

/// The names in the store once `v` is installed, reached through `tag` if
/// one is given.
pub open spec fn installed_store(
    names: Seq<Seq<char>>,
    tag: Option<SpecialVer>,
    v: VersionParts,
) -> Seq<Seq<char>> {
    let s1 = if needs_download(names, v) {
        add_name(add_name(names, artifact_name(v)), unqualified_name(v))
    } else {
        names
    };
    match tag {
        Some(t) => add_name(s1, alias_link_name(t)),
        None => s1,
    }
}

pub fn artifact_file_name(v: &SemVer) -> (r: String)
    ensures
        r@ == artifact_name(v.parts()),
{
    String::from_str("surreal-v").concat(v.to_text().as_str())
}

pub fn unqualified_file_name(v: &SemVer) -> (r: String)
    ensures
        r@ == unqualified_name(v.parts()),
{
    String::from_str("surreal-").concat(v.to_text().as_str())
}

pub fn alias_file_name(t: SpecialVer) -> (r: String)
    ensures
        r@ == alias_link_name(t),
{
    String::from_str("surreal-").concat(t.to_name())
}

pub fn release_url(v: &SemVer, os: &str, cpu: &str) -> (r: String)
    ensures
        r@ == download_url(v.parts(), os@, cpu@),
{
    let text = v.to_text();
    let mut r = String::from_str("https://download.surrealdb.com/v");
    r.append(text.as_str());
    r.append("/surreal-v");
    r.append(text.as_str());
    r.append(".");
    r.append(os);
    r.append("-");
    r.append(cpu);
    r.append(".tgz");
    r
}

impl SpecialVer {
    /// The address of the text file naming the version this tag stands for.
    pub fn alias_url(&self) -> (r: String)
        ensures
            r@ == alias_url(*self),
    {
        let mut r = String::from_str("https://download.surrealdb.com/");
        r.append(self.to_name());
        r.append(".txt");
        r
    }
}

/// Whether a directory listing holds the name `n`.
pub fn contains_name(names: &Vec<String>, n: &str) -> (r: bool)
    ensures
        r == names_view(names@).contains(n@),
{
    let mut i: usize = 0;
    while i < names.len()
        invariant
            i <= names.len(),
            forall|j: int| 0 <= j < i ==> names@[j]@ != n@,
        decreases names.len() - i,
    {
        if eq_str(names[i].as_str(), n) {
            assert(names_view(names@)[i as int] == n@);
            return true;
        }
        i = i + 1;
    }
    assert forall|j: int| 0 <= j < names_view(names@).len() implies names_view(names@)[j]
        != n@ by {
        assert(names_view(names@)[j] == names@[j]@);
    }
    false
}

/// The download of a release archive, and where it is unpacked.
pub struct Download {
    pub url: String,
    pub archive: String,
    pub staging: String,
}

/// What an install does to the store. `download`, where present, is fetched
/// into `archive` (a file that must not exist yet), unpacked into `staging`,
/// and its single `surreal` binary renamed to `artifact`; then
/// `unqualified_link` is made to point at `artifact`, and `alias_link`, where
/// present, is replaced by a link to `artifact`.
pub struct InstallPlan {
    pub download: Option<Download>,
    pub artifact: String,
    pub unqualified_link: Option<String>,
    pub alias_link: Option<String>,
}

impl InstallPlan {
    /// The names in a store holding `names` once this plan is carried out.
    pub open spec fn effect(&self, names: Seq<Seq<char>>) -> Seq<Seq<char>> {
        let s1 = if self.download is Some {
            add_name(names, self.artifact@)
        } else {
            names
        };
        let s2 = match self.unqualified_link {
            Some(u) => add_name(s1, u@),
            None => s1,
        };
        match self.alias_link {
            Some(a) => add_name(s2, a@),
            None => s2,
        }
    }
}

/// Decides what installing `ver` does to a store whose entries are `names`;
/// `tag` is the reserved tag that `ver` was looked up through, if any. Where
/// the version is installed already, nothing is downloaded: that is an error
/// unless `allow_installed` is set, in which case only the alias is
/// refreshed.
pub fn plan_install(
    names: &Vec<String>,
    tag: Option<SpecialVer>,
    ver: &SemVer,
    os: &str,
    cpu: &str,
    allow_installed: bool,
) -> (r: Result<InstallPlan, SVMError>)
    ensures
        r is Err <==> (!needs_download(names_view(names@), ver.parts()) && !allow_installed),
        r is Err ==> r->Err_0 is Thrown,
        r is Ok ==> {
            let p = r->Ok_0;
            &&& p.artifact@ == artifact_name(ver.parts())
            &&& (p.download is Some <==> needs_download(names_view(names@), ver.parts()))
            &&& p.download is Some ==> {
                &&& p.download->0.url@ == download_url(ver.parts(), os@, cpu@)
                &&& p.download->0.archive@ == archive_name(ver.parts())
                &&& p.download->0.staging@ == staging_name(ver.parts())
            }
            &&& (p.unqualified_link is Some <==> p.download is Some)
            &&& p.unqualified_link is Some ==> p.unqualified_link->0@ == unqualified_name(
                ver.parts(),
            )
            &&& match tag {
                Some(t) => p.alias_link is Some && p.alias_link->0@ == alias_link_name(t),
                None => p.alias_link is None,
            }
            &&& p.effect(names_view(names@)) == installed_store(
                names_view(names@),
                tag,
                ver.parts(),
            )
        },
{
    let artifact = artifact_file_name(ver);
    let present = contains_name(names, artifact.as_str());
    if present && !allow_installed {
        return Err(SVMError::Thrown(
            String::from_str("specified version already installed (--force support wip)"),
        ));
    }
    let alias_link = match tag {
        Some(t) => Some(alias_file_name(t)),
        None => None,
    };
    if present {
        Ok(InstallPlan { download: None, artifact, unqualified_link: None, alias_link })
    } else {
        let mut archive = artifact_file_name(ver);
        archive.append(".tgz");
        let staging = String::from_str("tmp_").concat(artifact.as_str());
        let download = Download { url: release_url(ver, os, cpu), archive, staging };
        Ok(InstallPlan {
            download: Some(download),
            artifact,
            unqualified_link: Some(unqualified_file_name(ver)),
            alias_link,
        })
    }
}

} // verus!
