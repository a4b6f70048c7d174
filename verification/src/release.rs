//! Release metadata as handed over by the release registry: a version string
//! together with the downloadable assets, each a name and a download URL.

use vstd::prelude::*;

verus! {

/// One downloadable asset of a release.
#[derive(Clone, Debug)]
pub struct Asset {
    pub name: String,
    pub download_url: String,
}

/// Mathematical model of an [`Asset`]: both strings as character sequences.
pub struct AssetModel {
    pub name: Seq<char>,
    pub download_url: Seq<char>,
}

impl View for Asset {
    type V = AssetModel;

    open spec fn view(&self) -> AssetModel {
        AssetModel { name: self.name@, download_url: self.download_url@ }
    }
}

impl DeepView for Asset {
    type V = AssetModel;

    open spec fn deep_view(&self) -> AssetModel {
        self.view()
    }
}

/// The latest qualifying release of the upstream repository, as reported by
/// the release registry.
#[derive(Clone, Debug)]
pub struct Release {
    pub version: String,
    pub assets: Vec<Asset>,
}

/// Mathematical model of a [`Release`].
pub struct ReleaseModel {
    pub version: Seq<char>,
    pub assets: Seq<AssetModel>,
}

impl View for Release {
    type V = ReleaseModel;

    open spec fn view(&self) -> ReleaseModel {
        ReleaseModel { version: self.version@, assets: self.assets.deep_view() }
    }
}

/// Whether some asset in the list carries exactly this name.
pub open spec fn has_asset(assets: Seq<AssetModel>, name: Seq<char>) -> bool {
    exists|i: int| 0 <= i < assets.len() && assets[i].name == name
}

/// Finds the first asset whose name equals `name` exactly, as the resolution
/// step does when it looks for the asset built for the current platform.
pub fn find_asset(assets: &Vec<Asset>, name: &String) -> (r: Option<usize>)
    ensures
        match r {
            Some(i) => {
                &&& i < assets@.len()
                &&& assets@[i as int].name@ == name@
                &&& forall|j: int| 0 <= j < i ==> assets@[j].name@ != name@
            },
            None => forall|j: int| 0 <= j < assets@.len() ==> assets@[j].name@ != name@,
        },
        r is Some <==> has_asset(assets.deep_view(), name@),
{
    let n = assets.len();
    let mut i: usize = 0;
    while i < n
        invariant
            n == assets@.len(),
            i <= n,
            forall|j: int| 0 <= j < i ==> assets@[j].name@ != name@,
        decreases n - i,
    {
        if assets[i].name.eq(name) {
            assert(assets.deep_view()[i as int].name == name@);
            return Some(i);
        }
        i = i + 1;
    }
    assert(forall|j: int| 0 <= j < assets.deep_view().len() ==> assets.deep_view()[j].name
        == assets@[j].name@);
    None
}

} // verus!
