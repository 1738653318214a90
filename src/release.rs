use vstd::prelude::*;

verus! {

/// The views of a list of strings.
pub open spec fn strings_view(v: Seq<String>) -> Seq<Seq<char>> {
    v.map_values(|s: String| s@)
}

/// A file attached to an upstream release.
#[derive(Clone, Debug, PartialEq, Eq)]
pub struct Asset {
    pub name: String,
    pub download_url: String,
}

pub struct AssetView {
    pub name: Seq<char>,
    pub download_url: Seq<char>,
}

impl View for Asset {
    type V = AssetView;

    open spec fn view(&self) -> AssetView {
        AssetView { name: self.name@, download_url: self.download_url@ }
    }
}

/// The views of a list of assets.
pub open spec fn assets_view(v: Seq<Asset>) -> Seq<AssetView> {
    v.map_values(|a: Asset| a@)
}

/// The latest release of the upstream repository: its version and its assets.
#[derive(Clone, Debug, PartialEq, Eq)]
pub struct Release {
    pub version: String,
    pub assets: Vec<Asset>,
}

pub struct ReleaseView {
    pub version: Seq<char>,
    pub assets: Seq<AssetView>,
}

impl View for Release {
    type V = ReleaseView;

    open spec fn view(&self) -> ReleaseView {
        ReleaseView { version: self.version@, assets: assets_view(self.assets@) }
    }
}

/// The first asset in `assets` whose name is exactly `name`.
pub open spec fn find_asset_spec(assets: Seq<AssetView>, name: Seq<char>) -> Option<AssetView>
    decreases assets.len(),
{
    if assets.len() == 0 {
        None
    } else if assets[0].name == name {
        Some(assets[0])
    } else {
        find_asset_spec(assets.drop_first(), name)
    }
}

/// The index of the first asset of `assets` named exactly `name`.
pub fn find_asset(assets: &Vec<Asset>, name: &String) -> (r: Option<usize>)
    ensures
        match r {
            Some(i) => {
                &&& i < assets.len()
                &&& assets@[i as int].name@ == name@
                &&& forall|j: int| 0 <= j < i ==> assets@[j].name@ != name@
                &&& find_asset_spec(assets_view(assets@), name@) == Some(assets@[i as int]@)
            },
            None => find_asset_spec(assets_view(assets@), name@) is None,
        },
{
    let ghost all = assets_view(assets@);
    let mut i: usize = 0;
    assert(all.subrange(0, all.len() as int) =~= all);
    while i < assets.len()
        invariant
            i <= assets.len(),
            all == assets_view(assets@),
            forall|j: int| 0 <= j < i ==> assets@[j].name@ != name@,
            find_asset_spec(all, name@) == find_asset_spec(all.subrange(i as int, all.len() as int), name@),
        decreases assets.len() - i,
    {
        if assets[i].name == *name {
            return Some(i);
        }
        assert(all.subrange(i as int, all.len() as int).drop_first() =~= all.subrange(
            i + 1,
            all.len() as int,
        ));
        i += 1;
    }
    None
}

} // verus!
