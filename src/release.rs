use vstd::prelude::*;

use crate::error::InstallError;
use crate::text::{contains, ends_with, text_contains, text_ends_with};

verus! {

/// One downloadable file attached to a release.
#[derive(Clone, Debug)]
pub struct Asset {
    pub name: String,
    pub browser_download_url: String,
}

/// One published version of the application.
#[derive(Clone, Debug)]
pub struct Release {
    pub tag_name: String,
    pub assets: Vec<Asset>,
}

/// The first position in `from..n` whose index satisfies `p`, or `n` where none does.
pub open spec fn first_where(p: spec_fn(int) -> bool, from: int, n: int) -> int
    decreases n - from,
{
    if from >= n {
        n
    } else if p(from) {
        from
    } else {
        first_where(p, from + 1, n)
    }
}

/// `first_where` is the least position in range that satisfies `p`.
pub proof fn lemma_first_where(p: spec_fn(int) -> bool, from: int, n: int)
    requires
        from <= n,
    ensures
        from <= first_where(p, from, n) <= n,
        first_where(p, from, n) < n ==> p(first_where(p, from, n)),
        forall|k: int| from <= k < first_where(p, from, n) ==> !#[trigger] p(k),
    decreases n - from,
{
    if from < n && !p(from) {
        lemma_first_where(p, from + 1, n);
    }
}

/// A release that may be installed: anything but the rolling `main` build.
pub open spec fn is_tagged_release(r: Release) -> bool {
    r.tag_name@ != "main"@
}

/// Which positions of `rs` hold an installable release.
pub open spec fn tagged_at(rs: Seq<Release>) -> spec_fn(int) -> bool {
    |k: int| is_tagged_release(rs[k])
}

/// Index of the first installable release of `rs`, or `rs.len()`.
pub open spec fn first_release(rs: Seq<Release>) -> int {
    first_where(tagged_at(rs), 0, rs.len() as int)
}

/// The release to install, by index, or why there is none.
pub open spec fn chosen_release(rs: Seq<Release>) -> Result<int, InstallError> {
    if first_release(rs) < rs.len() {
        Ok(first_release(rs))
    } else {
        Err(InstallError::NoSuitableRelease)
    }
}

/// The name ends in one of the installable package extensions.
pub open spec fn is_package_name(name: Seq<char>) -> bool {
    ends_with(name, "deb"@) || ends_with(name, "rpm"@) || ends_with(name, "flatpak"@)
}

/// An asset name that fits the platform: a package that carries the platform tag.
pub open spec fn fits_platform(name: Seq<char>, tag: Seq<char>) -> bool {
    is_package_name(name) && contains(name, tag)
}

/// Which positions of `assets` hold an asset that fits `tag`.
pub open spec fn fitting_at(assets: Seq<Asset>, tag: Seq<char>) -> spec_fn(int) -> bool {
    |k: int| fits_platform(assets[k].name@, tag)
}

/// Index of the first asset of `assets` that fits `tag`, or `assets.len()`.
pub open spec fn first_asset(assets: Seq<Asset>, tag: Seq<char>) -> int {
    first_where(fitting_at(assets, tag), 0, assets.len() as int)
}

/// The asset to download, by index, or why there is none.
pub open spec fn chosen_asset(assets: Seq<Asset>, tag: Seq<char>) -> Result<int, InstallError> {
    if first_asset(assets, tag) < assets.len() {
        Ok(first_asset(assets, tag))
    } else {
        Err(InstallError::NoMatchingAsset)
    }
}

/// An index result seen as a mathematical integer.
pub open spec fn index_result(r: Result<usize, InstallError>) -> Result<int, InstallError> {
    match r {
        Ok(i) => Ok(i as int),
        Err(e) => Err(e),
    }
}

/// Picks the first release that is not the rolling `main` build.
pub fn select_release(releases: &Vec<Release>) -> (r: Result<usize, InstallError>)
    ensures
        index_result(r) == chosen_release(releases@),
        match r {
            Ok(i) => i < releases@.len() && is_tagged_release(releases@[i as int]) && forall|k: int|
                0 <= k < i ==> !is_tagged_release(#[trigger] releases@[k]),
            Err(e) => e == InstallError::NoSuitableRelease && forall|k: int|
                0 <= k < releases@.len() ==> !is_tagged_release(#[trigger] releases@[k]),
        },
{
    let ghost p = tagged_at(releases@);
    let ghost n = releases@.len() as int;
    let mut i: usize = 0;
    while i < releases.len()
        invariant
            i <= releases@.len(),
            n == releases@.len(),
            p == tagged_at(releases@),
            first_where(p, 0, n) == first_where(p, i as int, n),
            forall|k: int| 0 <= k < i ==> !is_tagged_release(#[trigger] releases@[k]),
        decreases releases@.len() - i,
    {
        if !crate::text::same_text(releases[i].tag_name.as_str(), "main") {
            return Ok(i);
        }
        i = i + 1;
    }
    Err(InstallError::NoSuitableRelease)
}

/// Whether an asset name is an installable package for the platform `tag`:
/// it ends in `deb`, `rpm` or `flatpak` and holds `tag` somewhere.
pub fn asset_matches(name: &str, tag: &str) -> (r: bool)
    ensures
        r == fits_platform(name@, tag@),
{
    (text_ends_with(name, "deb") || text_ends_with(name, "rpm") || text_ends_with(name, "flatpak"))
        && text_contains(name, tag)
}

/// Picks the first asset, in list order, that is an installable package for
/// the platform `tag`.
pub fn select_asset(assets: &Vec<Asset>, tag: &str) -> (r: Result<usize, InstallError>)
    ensures
        index_result(r) == chosen_asset(assets@, tag@),
        match r {
            Ok(i) => i < assets@.len() && fits_platform(assets@[i as int].name@, tag@) && forall|
                k: int,
            | 0 <= k < i ==> !fits_platform(#[trigger] assets@[k].name@, tag@),
            Err(e) => e == InstallError::NoMatchingAsset && forall|k: int|
                0 <= k < assets@.len() ==> !fits_platform(#[trigger] assets@[k].name@, tag@),
        },
{
    let ghost p = fitting_at(assets@, tag@);
    let ghost n = assets@.len() as int;
    let mut i: usize = 0;
    while i < assets.len()
        invariant
            i <= assets@.len(),
            n == assets@.len(),
            p == fitting_at(assets@, tag@),
            first_where(p, 0, n) == first_where(p, i as int, n),
            forall|k: int| 0 <= k < i ==> !fits_platform(#[trigger] assets@[k].name@, tag@),
        decreases assets@.len() - i,
    {
        if asset_matches(assets[i].name.as_str(), tag) {
            return Ok(i);
        }
        i = i + 1;
    }
    Err(InstallError::NoMatchingAsset)
}

/// Releases tagged `main` are never chosen: the chosen release is the first
/// one with another tag, and there is none exactly when every release is
/// tagged `main`.
pub proof fn lemma_main_releases_skipped(rs: Seq<Release>)
    ensures
        chosen_release(rs) matches Ok(i) ==> 0 <= i < rs.len() && rs[i].tag_name@ != "main"@
            && forall|k: int| 0 <= k < i ==> #[trigger] rs[k].tag_name@ == "main"@,
        chosen_release(rs) is Err <==> forall|k: int|
            0 <= k < rs.len() ==> #[trigger] rs[k].tag_name@ == "main"@,
        chosen_release(rs) is Err ==> chosen_release(rs) == Err::<int, InstallError>(
            InstallError::NoSuitableRelease,
        ),
{
    let p = tagged_at(rs);
    lemma_first_where(p, 0, rs.len() as int);
    assert forall|k: int| 0 <= k < first_release(rs) implies #[trigger] rs[k].tag_name@ == "main"@ by {
        assert(!p(k));
    }
}

/// Asset selection is the first asset, in list order, that is a package for
/// the platform; there is none exactly when no asset is.
pub proof fn lemma_first_fitting_asset(assets: Seq<Asset>, tag: Seq<char>)
    ensures
        chosen_asset(assets, tag) matches Ok(j) ==> 0 <= j < assets.len() && fits_platform(
            assets[j].name@,
            tag,
        ) && forall|k: int| 0 <= k < j ==> !fits_platform(#[trigger] assets[k].name@, tag),
        chosen_asset(assets, tag) is Err <==> forall|k: int|
            0 <= k < assets.len() ==> !fits_platform(#[trigger] assets[k].name@, tag),
{
    let p = fitting_at(assets, tag);
    lemma_first_where(p, 0, assets.len() as int);
    assert forall|k: int| 0 <= k < first_asset(assets, tag) implies !fits_platform(
        #[trigger] assets[k].name@,
        tag,
    ) by {
        assert(!p(k));
    }
}

} // verus!
