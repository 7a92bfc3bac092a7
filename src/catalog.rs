//! Releases as the registry lists them, and the list rows built from them.

use vstd::prelude::*;

verus! {

/// A downloadable artifact attached to a release.
pub struct Asset {
    pub name: String,
    pub browser_download_url: String,
    pub id: i32,
}

/// A published release: tag, notes, optional display name and assets.
pub struct Release {
    pub tag_name: String,
    pub body: String,
    pub name: Option<String>,
    pub assets: Vec<Asset>,
}

/// Whether a pipeline run is under way for an item.
#[derive(Clone, Copy, Debug, PartialEq, Eq, Structural)]
pub enum Status {
    Idle,
    InProgress,
}

/// One row of the list: what the view shows and what an install needs.
pub struct ReleaseItem {
    pub tag_name: String,
    pub body: String,
    /// The id of the installable asset, if the release has one.
    pub asset_id: Option<i32>,
    pub status: Status,
}

/// The file-name extension of a device-installable package.
pub const PACKAGE_EXTENSION: &'static str = ".apk";

/// `suffix` is a suffix of `s`.
pub open spec fn is_suffix(s: Seq<char>, suffix: Seq<char>) -> bool {
    suffix.len() <= s.len() && s.subrange(s.len() - suffix.len(), s.len() as int) == suffix
}

/// An asset name that marks a device-installable package.
pub open spec fn is_package_name(name: Seq<char>) -> bool {
    is_suffix(name, PACKAGE_EXTENSION@)
}

/// The id of the first asset whose name marks an installable package.
pub open spec fn first_package_id(assets: Seq<Asset>) -> Option<i32>
    decreases assets.len(),
{
    if assets.len() == 0 {
        None
    } else if is_package_name(assets[0].name@) {
        Some(assets[0].id)
    } else {
        first_package_id(assets.drop_first())
    }
}

/// Whether `s` ends with `suffix`, compared character by character.
pub fn ends_with(s: &str, suffix: &str) -> (r: bool)
    ensures
        r == is_suffix(s@, suffix@),
{
    let n = s.unicode_len();
    let m = suffix.unicode_len();
    if m > n {
        return false;
    }
    let start: usize = n - m;
    let mut k: usize = 0;
    while k < m
        invariant
            n == s@.len(),
            m == suffix@.len(),
            m <= n,
            start == n - m,
            k <= m,
            forall|j: int| 0 <= j < k ==> s@[start + j] == suffix@[j],
        decreases m - k,
    {
        if s.get_char(start + k) != suffix.get_char(k) {
            assert(s@.subrange(start as int, n as int)[k as int] != suffix@[k as int]);
            return false;
        }
        k = k + 1;
    }
    assert(s@.subrange(start as int, n as int) =~= suffix@);
    true
}

/// The id of the first asset of `assets` whose name ends in the package
/// extension, or `None` when there is none.
pub fn installable_asset(assets: &Vec<Asset>) -> (r: Option<i32>)
    ensures
        r == first_package_id(assets@),
{
    let mut i: usize = 0;
    assert(assets@.subrange(0, assets@.len() as int) =~= assets@);
    while i < assets.len()
        invariant
            i <= assets@.len(),
            first_package_id(assets@) == first_package_id(assets@.subrange(i as int, assets@.len() as int)),
        decreases assets@.len() - i,
    {
        let rest = Ghost(assets@.subrange(i as int, assets@.len() as int));
        assert(rest@[0] == assets@[i as int]);
        if ends_with(assets[i].name.as_str(), PACKAGE_EXTENSION) {
            return Some(assets[i].id);
        }
        assert(rest@.drop_first() =~= assets@.subrange(i + 1, assets@.len() as int));
        i = i + 1;
    }
    assert(assets@.subrange(i as int, assets@.len() as int) =~= Seq::<Asset>::empty());
    None
}

/// The row for `release`: its tag and notes, its first installable asset,
/// and no run under way.
pub open spec fn item_of(release: &Release) -> ReleaseItem {
    ReleaseItem {
        tag_name: release.tag_name,
        body: release.body,
        asset_id: first_package_id(release.assets@),
        status: Status::Idle,
    }
}

impl<'a> From<&'a Release> for ReleaseItem {
    fn from(release: &'a Release) -> (r: ReleaseItem)
        ensures
            r == item_of(release),
    {
        ReleaseItem {
            tag_name: release.tag_name.clone(),
            body: release.body.clone(),
            asset_id: installable_asset(&release.assets),
            status: Status::Idle,
        }
    }
}

impl<'a> vstd::std_specs::convert::FromSpecImpl<&'a Release> for ReleaseItem {
    open spec fn obeys_from_spec() -> bool {
        true
    }

    open spec fn from_spec(release: &'a Release) -> ReleaseItem {
        item_of(release)
    }
}

} // verus!
