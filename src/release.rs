//! Choosing the release to install: where its description lives and which of its assets fits
//! this machine.
use vstd::prelude::*;
use crate::text::{chars_of, find_from, find_text, text_eq};

verus! {

/// A file attached to a release.
#[derive(Debug, Clone, PartialEq)]
pub struct ReleaseAsset {
    pub name: String,
    pub browser_download_url: String,
    pub size: u64,
}

/// The text of `s` in lower case, as str::to_lowercase gives it.
pub uninterp spec fn lower_of(s: Seq<char>) -> Seq<char>;

/// Relies on str::to_lowercase: the result depends on the characters alone.
#[verifier::external_body]
fn lowercase(s: &str) -> (r: String)
    ensures
        r@ == lower_of(s@),
{
    s.to_lowercase()
}

/// The address of a release's description: the named tag, or the latest release.
pub open spec fn release_api_url(repo: Seq<char>, version: Option<Seq<char>>) -> Seq<char> {
    match version {
        Some(tag) => "https://api.github.com/repos/"@ + repo + "/releases/tags/"@ + tag,
        None => "https://api.github.com/repos/"@ + repo + "/releases/latest"@,
    }
}

/// The address of a release's description: the named tag, or the latest release.
pub fn build_release_api_url(repo: &str, version: Option<&str>) -> (r: String)
    ensures
        r@ == release_api_url(repo@, match version {
            Some(t) => Some(t@),
            None => None,
        }),
{
    let mut s = "https://api.github.com/repos/".to_owned();
    s.append(repo);
    match version {
        Some(tag) => {
            s.append("/releases/tags/");
            s.append(tag);
        },
        None => {
            s.append("/releases/latest");
        },
    }
    s
}

/// The name fragments that mark an asset for an operating system and for a processor.
pub fn detect_patterns(os: &str, arch: &str) -> (r: (Vec<String>, Vec<String>))
    ensures
        r.0@.len() > 0,
        r.1@.len() > 0,
        arch@ != "aarch64"@ && arch@ != "x86_64"@ ==> r.1@.len() == 1 && r.1@[0]@ == arch@,
{
    let mut os_patterns: Vec<String> = Vec::new();
    if text_eq(os, "macos") {
        os_patterns.push("apple-darwin".to_owned());
        os_patterns.push("darwin".to_owned());
        os_patterns.push("macos".to_owned());
        os_patterns.push("osx".to_owned());
    } else if text_eq(os, "windows") {
        os_patterns.push("windows".to_owned());
        os_patterns.push("win".to_owned());
    } else {
        os_patterns.push("linux".to_owned());
        os_patterns.push("gnu".to_owned());
        os_patterns.push("musl".to_owned());
    }
    let mut arch_patterns: Vec<String> = Vec::new();
    if text_eq(arch, "aarch64") {
        arch_patterns.push("aarch64".to_owned());
        arch_patterns.push("arm64".to_owned());
    } else if text_eq(arch, "x86_64") {
        arch_patterns.push("x86_64".to_owned());
        arch_patterns.push("amd64".to_owned());
    } else {
        arch_patterns.push(arch.to_owned());
    }
    (os_patterns, arch_patterns)
}

/// Whether `p` occurs in `s`.
pub open spec fn contains(s: Seq<char>, p: Seq<char>) -> bool {
    find_from(s, p, 0) is Some
}

/// Whether one of the patterns occurs in `s`.
pub open spec fn contains_any(s: Seq<char>, ps: Seq<String>) -> bool {
    exists|i: int| 0 <= i < ps.len() && contains(s, (#[trigger] ps[i])@)
}

/// Whether an asset is one of this program's, and, where `strict` holds, also names the
/// operating system and the processor.
pub open spec fn fits(a: ReleaseAsset, os: Seq<String>, arch: Seq<String>, strict: bool) -> bool {
    let name = lower_of(a.name@);
    contains(name, "cfai"@) && (strict ==> contains_any(name, os) && contains_any(name, arch))
}

/// Whether some asset fits.
pub open spec fn some_fit(assets: Seq<ReleaseAsset>, os: Seq<String>, arch: Seq<String>, strict: bool) -> bool {
    exists|k: int| 0 <= k < assets.len() && fits(#[trigger] assets[k], os, arch, strict)
}

/// Whether asset `k` is the largest of those that fit, and the last among equally large ones.
pub open spec fn is_best(assets: Seq<ReleaseAsset>, os: Seq<String>, arch: Seq<String>, strict: bool, k: int) -> bool {
    &&& 0 <= k < assets.len()
    &&& fits(assets[k], os, arch, strict)
    &&& forall|j: int| 0 <= j < assets.len() && fits(#[trigger] assets[j], os, arch, strict) ==> assets[j].size <= assets[k].size
    &&& forall|j: int| k < j < assets.len() && fits(#[trigger] assets[j], os, arch, strict) ==> assets[j].size < assets[k].size
}

/// Whether one of the patterns occurs in `s`.
fn contains_any_of(s: &Vec<char>, ps: &Vec<String>) -> (r: bool)
    ensures
        r == contains_any(s@, ps@),
{
    let mut i: usize = 0;
    while i < ps.len()
        invariant
            i <= ps.len(),
            forall|j: int| 0 <= j < i ==> !contains(s@, (#[trigger] ps@[j])@),
        decreases ps.len() - i,
    {
        let p = chars_of(ps[i].as_str());
        if find_text(s, &p, 0).is_some() {
            return true;
        }
        i += 1;
    }
    false
}

/// Whether an asset fits.
fn asset_fits(a: &ReleaseAsset, os: &Vec<String>, arch: &Vec<String>, strict: bool) -> (r: bool)
    ensures
        r == fits(*a, os@, arch@, strict),
{
    let name = chars_of(lowercase(a.name.as_str()).as_str());
    let ours = find_text(&name, &chars_of("cfai"), 0).is_some();
    if !ours {
        return false;
    }
    !strict || (contains_any_of(&name, os) && contains_any_of(&name, arch))
}

/// The index of the largest fitting asset, the last among equally large ones.
fn best_fit(assets: &Vec<ReleaseAsset>, os: &Vec<String>, arch: &Vec<String>, strict: bool) -> (r: Option<usize>)
    ensures
        r matches Some(k) ==> is_best(assets@, os@, arch@, strict, k as int),
        r is None ==> !some_fit(assets@, os@, arch@, strict),
{
    let mut best: Option<usize> = None;
    let mut i: usize = 0;
    while i < assets.len()
        invariant
            i <= assets.len(),
            best matches Some(k) ==> k < i && fits(assets@[k as int], os@, arch@, strict),
            best matches Some(k) ==> forall|j: int| 0 <= j < i && fits(#[trigger] assets@[j], os@, arch@, strict) ==> assets@[j].size <= assets@[k as int].size,
            best matches Some(k) ==> forall|j: int| k < j < i && fits(#[trigger] assets@[j], os@, arch@, strict) ==> assets@[j].size < assets@[k as int].size,
            best is None ==> forall|j: int| 0 <= j < i ==> !fits(#[trigger] assets@[j], os@, arch@, strict),
        decreases assets.len() - i,
    {
        if asset_fits(&assets[i], os, arch, strict) {
            match best {
                Some(k) => {
                    if assets[i].size >= assets[k].size {
                        best = Some(i);
                    }
                },
                None => {
                    best = Some(i);
                },
            }
        }
        i += 1;
    }
    best
}

/// The asset to install: the largest of this program's assets that name this operating system
/// and processor, or, where none does, the largest of this program's assets; the last among
/// equally large ones. `None` where no asset is this program's.
pub fn select_best_asset(assets: &Vec<ReleaseAsset>, os: &Vec<String>, arch: &Vec<String>) -> (r: Option<ReleaseAsset>)
    ensures
        r is None <==> !some_fit(assets@, os@, arch@, false),
        r matches Some(a) ==> exists|k: int| {
            &&& is_best(assets@, os@, arch@, some_fit(assets@, os@, arch@, true), k)
            &&& a.name@ == (#[trigger] assets@[k]).name@
            &&& a.browser_download_url@ == assets@[k].browser_download_url@
            &&& a.size == assets@[k].size
        },
{
    let found = match best_fit(assets, os, arch, true) {
        Some(k) => Some(k),
        None => best_fit(assets, os, arch, false),
    };
    match found {
        Some(k) => {
            proof {
                assert(fits(assets@[k as int], os@, arch@, false));
            }
            let a = &assets[k];
            Some(ReleaseAsset { name: a.name.clone(), browser_download_url: a.browser_download_url.clone(), size: a.size })
        },
        None => {
            proof {
                assert forall|k: int| 0 <= k < assets@.len() implies !fits(#[trigger] assets@[k], os@, arch@, true) by {
                    if fits(assets@[k], os@, arch@, true) {
                        assert(fits(assets@[k], os@, arch@, false));
                    }
                }
            }
            None
        },
    }
}

} // verus!
