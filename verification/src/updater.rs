//! Release metadata for the self-updater: which published asset fits
//! this machine. The download itself happens outside the library.
//!
//! Asset names are matched case-insensitively in the ASCII range,
//! byte for byte.

use vstd::prelude::*;
use vstd::string::{StringExecFns, StringSliceAdditionalSpecFns};

use crate::bytes::{
    bytes_eq, contains_bytes, contains_lower, ends_with_bytes, ends_with_lower, lower_bytes,
    str_bytes_eq,
};

verus! {

/// Description of an available update, assembled from the published
/// release.
#[derive(Debug, Clone)]
pub struct UpdateManifest {
    pub name: Option<String>,
    pub version: String,
    pub author: Option<String>,
    pub website: Option<String>,
    pub download_url: Option<String>,
    pub notes: Option<String>,
    pub asset_name: Option<String>,
}

/// One downloadable file of a published release.
#[derive(Debug, Clone)]
pub struct ReleaseAsset {
    pub name: String,
    pub browser_download_url: String,
    pub content_type: Option<String>,
}

/// The published architecture names this machine accepts in an asset
/// name, by the build's architecture string.
pub open spec fn spec_matches_arch(name: Seq<u8>, arch: Seq<u8>) -> bool {
    if arch == ("x86_64").spec_bytes() || arch == ("amd64").spec_bytes() {
        contains_bytes(lower_bytes(name), ("x86_64").spec_bytes()) || contains_bytes(
            lower_bytes(name),
            ("x64").spec_bytes(),
        ) || contains_bytes(lower_bytes(name), ("amd64").spec_bytes())
    } else if arch == ("aarch64").spec_bytes() {
        contains_bytes(lower_bytes(name), ("aarch64").spec_bytes()) || contains_bytes(
            lower_bytes(name),
            ("arm64").spec_bytes(),
        )
    } else {
        true
    }
}

/// Whether an asset name fits the given machine architecture: on the
/// 64-bit x86 and arm architectures the folded name must mention
/// one of their published spellings; any other architecture accepts
/// every name.
pub fn matches_arch(name: &str, arch: &str) -> (r: bool)
    ensures
        r == spec_matches_arch(name.spec_bytes(), arch.spec_bytes()),
{
    let nb = name.as_bytes();
    let ab = arch.as_bytes();
    if bytes_eq(ab, "x86_64".as_bytes()) || bytes_eq(ab, "amd64".as_bytes()) {
        contains_lower(nb, "x86_64".as_bytes()) || contains_lower(nb, "x64".as_bytes())
            || contains_lower(nb, "amd64".as_bytes())
    } else if bytes_eq(ab, "aarch64".as_bytes()) {
        contains_lower(nb, "aarch64".as_bytes()) || contains_lower(nb, "arm64".as_bytes())
    } else {
        true
    }
}

/// An asset fits when its folded name ends in the extension and it
/// matches the machine architecture.
pub open spec fn spec_asset_matches(a: ReleaseAsset, ext: Seq<u8>, arch: Seq<u8>) -> bool {
    &&& ends_with_bytes(lower_bytes(vstd::utf8::encode_utf8(a.name@)), ext)
    &&& spec_matches_arch(vstd::utf8::encode_utf8(a.name@), arch)
}

/// The position of the first fitting asset at or after `i`.
pub open spec fn spec_find_asset(
    assets: Seq<ReleaseAsset>,
    ext: Seq<u8>,
    arch: Seq<u8>,
    i: int,
) -> Option<int>
    decreases assets.len() - i,
{
    if i < 0 || i >= assets.len() {
        None
    } else if spec_asset_matches(assets[i], ext, arch) {
        Some(i)
    } else {
        spec_find_asset(assets, ext, arch, i + 1)
    }
}

pub open spec fn or_found(a: Option<int>, b: Option<int>) -> Option<int> {
    if a is Some {
        a
    } else {
        b
    }
}

/// The position of the asset picked for a machine: the extensions
/// preferred on its operating system are tried in order, each
/// searched with the architecture filter; with no fit, the first
/// asset of the release is the fallback.
pub open spec fn spec_pick_asset(
    assets: Seq<ReleaseAsset>,
    os: Seq<u8>,
    arch: Seq<u8>,
) -> Option<int> {
    let prioritized = if os == ("windows").spec_bytes() {
        or_found(
            spec_find_asset(assets, (".msi").spec_bytes(), arch, 0),
            spec_find_asset(assets, (".exe").spec_bytes(), arch, 0),
        )
    } else if os == ("macos").spec_bytes() {
        or_found(
            spec_find_asset(assets, (".dmg").spec_bytes(), arch, 0),
            or_found(
                spec_find_asset(assets, (".pkg").spec_bytes(), arch, 0),
                spec_find_asset(assets, (".zip").spec_bytes(), arch, 0),
            ),
        )
    } else {
        or_found(
            spec_find_asset(assets, (".appimage").spec_bytes(), arch, 0),
            or_found(
                spec_find_asset(assets, (".deb").spec_bytes(), arch, 0),
                or_found(
                    spec_find_asset(assets, (".tar.gz").spec_bytes(), arch, 0),
                    spec_find_asset(assets, (".tar.xz").spec_bytes(), arch, 0),
                ),
            ),
        )
    };
    if prioritized is Some {
        prioritized
    } else if assets.len() > 0 {
        Some(0)
    } else {
        None
    }
}

fn asset_matches(a: &ReleaseAsset, ext: &str, arch: &str) -> (r: bool)
    ensures
        r == spec_asset_matches(*a, ext.spec_bytes(), arch.spec_bytes()),
{
    ends_with_lower(a.name.as_str().as_bytes(), ext.as_bytes()) && matches_arch(
        a.name.as_str(),
        arch,
    )
}

fn find_asset(assets: &Vec<ReleaseAsset>, ext: &str, arch: &str) -> (r: Option<usize>)
    ensures
        ({
            match spec_find_asset(assets@, ext.spec_bytes(), arch.spec_bytes(), 0) {
                Some(i) => r matches Some(k) && k as int == i && k < assets@.len(),
                None => r is None,
            }
        }),
{
    let mut k: usize = 0;
    while k < assets.len()
        invariant
            0 <= k <= assets@.len(),
            spec_find_asset(assets@, ext.spec_bytes(), arch.spec_bytes(), 0) == spec_find_asset(
                assets@,
                ext.spec_bytes(),
                arch.spec_bytes(),
                k as int,
            ),
        decreases assets@.len() - k,
    {
        if asset_matches(&assets[k], ext, arch) {
            return Some(k);
        }
        k = k + 1;
    }
    None
}

/// Copy a release asset field by field.
fn clone_asset(a: &ReleaseAsset) -> (r: ReleaseAsset)
    ensures
        r == *a,
{
    ReleaseAsset {
        name: a.name.clone(),
        browser_download_url: a.browser_download_url.clone(),
        content_type: match &a.content_type {
            Some(s) => Some(s.clone()),
            None => None,
        },
    }
}

/// Pick the release asset to install on a machine with the given
/// operating system and architecture names; see `spec_pick_asset`.
pub fn pick_asset(assets: &Vec<ReleaseAsset>, os: &str, arch: &str) -> (r: Option<ReleaseAsset>)
    ensures
        ({
            match spec_pick_asset(assets@, os.spec_bytes(), arch.spec_bytes()) {
                Some(i) => r matches Some(a) && 0 <= i < assets@.len() && a == assets@[i],
                None => r is None,
            }
        }),
{
    let prioritized: Option<usize> = if str_bytes_eq(os, "windows") {
        let first = find_asset(assets, ".msi", arch);
        if first.is_some() {
            first
        } else {
            find_asset(assets, ".exe", arch)
        }
    } else if str_bytes_eq(os, "macos") {
        let first = find_asset(assets, ".dmg", arch);
        if first.is_some() {
            first
        } else {
            let second = find_asset(assets, ".pkg", arch);
            if second.is_some() {
                second
            } else {
                find_asset(assets, ".zip", arch)
            }
        }
    } else {
        let first = find_asset(assets, ".appimage", arch);
        if first.is_some() {
            first
        } else {
            let second = find_asset(assets, ".deb", arch);
            if second.is_some() {
                second
            } else {
                let third = find_asset(assets, ".tar.gz", arch);
                if third.is_some() {
                    third
                } else {
                    find_asset(assets, ".tar.xz", arch)
                }
            }
        }
    };
    match prioritized {
        Some(k) => Some(clone_asset(&assets[k])),
        None => {
            if assets.len() > 0 {
                Some(clone_asset(&assets[0]))
            } else {
                None
            }
        },
    }
}



/// `s` without its leading run of the character `c`.
pub open spec fn drop_leading(s: Seq<char>, c: char) -> Seq<char>
    decreases s.len(),
{
    if s.len() > 0 && s[0] == c {
        drop_leading(s.drop_first(), c)
    } else {
        s
    }
}

/// Relies on str::trim_start_matches with a single-character pattern:
/// the input without its leading run of that character.
#[verifier::external_body]
fn trim_start_char(s: &str, c: char) -> (r: String)
    ensures
        r@ == drop_leading(s@, c),
{
    s.trim_start_matches(c).to_owned()
}

/// The version a release tag names: the tag without its leading `v`
/// marker characters.
pub fn release_version_from_tag(tag_name: &str) -> (r: String)
    ensures
        r@ == drop_leading(tag_name@, 'v'),
{
    trim_start_char(tag_name, 'v')
}

/// Assemble the update description from a published release's plain
/// fields and the asset picked for this machine: the version is the
/// tag without its `v` prefix, a release without a name is shown as
/// "Release" plus that version, the website is the release page,
/// and the download fields are present exactly when an asset was
/// picked.
pub fn build_update_manifest(
    tag_name: &str,
    name: Option<String>,
    notes: Option<String>,
    html_url: &str,
    author: Option<String>,
    assets: &Vec<ReleaseAsset>,
    os: &str,
    arch: &str,
) -> (r: UpdateManifest)
    ensures
        r.version@ == drop_leading(tag_name@, 'v'),
        name matches Some(n) ==> r.name matches Some(m) && m@ == n@,
        name is None ==> (r.name matches Some(m) && m@ == "Release "@ + drop_leading(
            tag_name@,
            'v',
        )),
        r.website matches Some(w) && w@ == html_url@,
        r.notes == notes,
        r.author == author,
        ({
            match spec_pick_asset(assets@, os.spec_bytes(), arch.spec_bytes()) {
                Some(i) => (r.download_url matches Some(u) && u@
                    == assets@[i].browser_download_url@) && (r.asset_name matches Some(an) && an@
                    == assets@[i].name@),
                None => r.download_url is None && r.asset_name is None,
            }
        }),
{
    let version = release_version_from_tag(tag_name);
    let display_name = match name {
        Some(n) => n,
        None => "Release ".to_owned().concat(version.as_str()),
    };
    let asset = pick_asset(assets, os, arch);
    let (download_url, asset_name) = match asset {
        Some(a) => (Some(a.browser_download_url), Some(a.name)),
        None => (None, None),
    };
    UpdateManifest {
        name: Some(display_name),
        version,
        author,
        website: Some(html_url.to_owned()),
        download_url,
        notes,
        asset_name,
    }
}

} // verus!
