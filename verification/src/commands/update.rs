//! The decisions of the self-update routine: version comparison, platform
//! lookup, asset selection.  Fetching the release, downloading the binary
//! and replacing the executable are I/O and live outside the library.

use vstd::prelude::*;
use crate::error::Error;

verus! {

/// A downloadable file of a release.
pub struct Asset {
    pub name: String,
    pub browser_download_url: String,
}

/// What the caller must download and install.
#[derive(Debug, PartialEq, Eq)]
pub struct DownloadPlan {
    pub asset_name: String,
    pub url: String,
}

/// A tag with every leading 'v' removed.
pub open spec fn stripped(tag: Seq<char>) -> Seq<char>
    decreases tag.len(),
{
    if tag.len() > 0 && tag[0] == 'v' {
        stripped(tag.subrange(1, tag.len() as int))
    } else {
        tag
    }
}

/// Removes every leading 'v' from a release tag.
pub fn strip_v(tag: &str) -> (r: String)
    ensures
        r@ == stripped(tag@),
{
    let len = tag.unicode_len();
    let mut i: usize = 0;
    proof {
        assert(tag@.subrange(0, len as int) =~= tag@);
    }
    while i < len && tag.get_char(i) == 'v'
        invariant
            i <= len,
            len == tag@.len(),
            stripped(tag@) == stripped(tag@.subrange(i as int, len as int)),
        decreases len - i,
    {
        proof {
            let suffix = tag@.subrange(i as int, len as int);
            assert(suffix[0] == tag@[i as int]);
            assert(suffix.subrange(1, suffix.len() as int) =~= tag@.subrange(
                i + 1,
                len as int,
            ));
        }
        i = i + 1;
    }
    proof {
        let suffix = tag@.subrange(i as int, len as int);
        if i < len {
            assert(suffix[0] == tag@[i as int]);
        }
        assert(stripped(suffix) == suffix);
    }
    let r = tag.substring_char(i, len).to_owned();
    r
}

/// The release asset that fits a platform, when the platform is one the
/// project publishes binaries for.
pub open spec fn spec_asset_name(os: Seq<char>, arch: Seq<char>) -> Option<Seq<char>> {
    if os == "macos"@ && arch == "aarch64"@ {
        Some("linear-macos-aarch64"@)
    } else if os == "macos"@ && arch == "x86_64"@ {
        Some("linear-macos-x86_64"@)
    } else if os == "linux"@ && arch == "x86_64"@ {
        Some("linear-linux-x86_64"@)
    } else if os == "linux"@ && arch == "aarch64"@ {
        Some("linear-linux-aarch64"@)
    } else {
        None
    }
}

/// Looks up the asset name for an OS and architecture pair; an unrecognized
/// pair is an error naming the pair.
pub fn get_asset_name(os: &str, arch: &str) -> (r: Result<&'static str, Error>)
    ensures
        spec_asset_name(os@, arch@) matches Some(n) ==> (r matches Ok(s) && s@ == n),
        spec_asset_name(os@, arch@) is None ==> (r matches Err(Error::GraphQL(m)) && m@
            == "Unsupported platform: "@ + os@ + "-"@ + arch@),
{
    let on_macos = crate::text::str_eq(os, "macos");
    let on_linux = crate::text::str_eq(os, "linux");
    let on_aarch64 = crate::text::str_eq(arch, "aarch64");
    let on_x86_64 = crate::text::str_eq(arch, "x86_64");
    if on_macos && on_aarch64 {
        Ok("linear-macos-aarch64")
    } else if on_macos && on_x86_64 {
        Ok("linear-macos-x86_64")
    } else if on_linux && on_x86_64 {
        Ok("linear-linux-x86_64")
    } else if on_linux && on_aarch64 {
        Ok("linear-linux-aarch64")
    } else {
        let mut m = String::from_str("Unsupported platform: ");
        m.append(os);
        m.append("-");
        m.append(arch);
        Err(Error::GraphQL(m))
    }
}

/// The position of the first asset with the wanted name, from position `i`.
pub open spec fn find_asset_from(assets: Seq<Asset>, name: Seq<char>, i: int) -> Option<int>
    decreases assets.len() - i,
{
    if i < 0 || i >= assets.len() {
        None
    } else if assets[i].name@ == name {
        Some(i)
    } else {
        find_asset_from(assets, name, i + 1)
    }
}

/// The position of the first asset with the wanted name.
pub open spec fn find_asset(assets: Seq<Asset>, name: Seq<char>) -> Option<int> {
    find_asset_from(assets, name, 0)
}

/// Decides the whole self-update: a tag equal (after stripping the leading
/// 'v') to the running version means nothing to do; otherwise the platform's
/// asset is looked up in the release and its download planned.  Every
/// failure leaves the running executable untouched, since nothing has been
/// downloaded yet.
pub fn plan_update(tag: &str, current_version: &str, os: &str, arch: &str, assets: &Vec<Asset>)
    -> (r: Result<Option<DownloadPlan>, Error>)
    ensures
        stripped(tag@) == current_version@ ==> (r matches Ok(p) && p is None),
        stripped(tag@) != current_version@ ==> match spec_asset_name(os@, arch@) {
            Some(n) => match find_asset(assets@, n) {
                Some(k) => (r matches Ok(p) && p matches Some(plan) && plan.asset_name@ == n
                    && plan.url@ == assets@[k].browser_download_url@),
                None => (r matches Err(Error::GraphQL(m)) && m@ == "No release asset found for "@
                    + n),
            },
            None => (r matches Err(Error::GraphQL(m)) && m@ == "Unsupported platform: "@ + os@
                + "-"@ + arch@),
        },
{
    let latest = strip_v(tag);
    if crate::text::str_eq(latest.as_str(), current_version) {
        return Ok(None);
    }
    let asset_name = match get_asset_name(os, arch) {
        Ok(n) => n,
        Err(e) => {
            return Err(e);
        },
    };
    let mut i: usize = 0;
    while i < assets.len()
        invariant
            i <= assets.len(),
            stripped(tag@) != current_version@,
            spec_asset_name(os@, arch@) == Some(asset_name@),
            find_asset(assets@, asset_name@) == find_asset_from(assets@, asset_name@, i as int),
        decreases assets.len() - i,
    {
        if crate::text::str_eq(assets[i].name.as_str(), asset_name) {
            proof {
                assert(find_asset_from(assets@, asset_name@, i as int) == Some(i as int));
            }
            return Ok(
                Some(
                    DownloadPlan {
                        asset_name: asset_name.to_owned(),
                        url: assets[i].browser_download_url.clone(),
                    },
                ),
            );
        }
        i = i + 1;
    }
    let mut m = String::from_str("No release asset found for ");
    m.append(asset_name);
    Err(Error::GraphQL(m))
}

} // verus!
