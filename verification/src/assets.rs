//! The asset list builder: an application declares its named assets up
//! front; the host later resolves each declaration against its asset
//! service. Declaring a file that is not present is refused at declaration
//! time, not at load time.

use vstd::prelude::*;

verus! {

/// What kind of asset a declaration names.
#[derive(Clone, Copy, PartialEq, Eq, Structural, Debug)]
pub enum AssetType {
    Image,
}

/// The errors of asset declaration.
#[derive(Clone, Copy, PartialEq, Eq, Structural, Debug)]
pub enum AssetError {
    /// The declared file is not present in the assets directory.
    MissingFile,
}

/// One declaration: a tag the application uses to name the asset, the file
/// it comes from, and its kind.
#[derive(Clone, Debug)]
pub struct AssetEntry {
    pub tag: String,
    pub filename: String,
    pub asset_type: AssetType,
}

/// The ordered list of asset declarations an application is built with.
#[derive(Clone)]
pub struct AssetManager {
    asset_list: Vec<AssetEntry>,
}

impl View for AssetManager {
    type V = Seq<AssetEntry>;

    closed spec fn view(&self) -> Seq<AssetEntry> {
        self.asset_list@
    }
}

impl AssetManager {
    /// An empty asset list.
    pub fn new() -> (m: AssetManager)
        ensures
            m@ == Seq::<AssetEntry>::empty(),
    {
        let m = AssetManager { asset_list: Vec::new() };
        proof {
            assert(m@ =~= Seq::<AssetEntry>::empty());
        }
        m
    }

    /// Declares an image asset. The host says whether the named file is
    /// present in its assets directory; a missing file is an error and
    /// leaves the list as it was, a present one is appended to the list.
    pub fn add_image(self, tag: String, filename: String, file_present: bool) -> (r: Result<
        AssetManager,
        AssetError,
    >)
        ensures
            file_present ==> (r matches Ok(m) && m@ == self@.push(AssetEntry {
                tag,
                filename,
                asset_type: AssetType::Image,
            })),
            !file_present ==> r == Err::<AssetManager, AssetError>(AssetError::MissingFile),
    {
        if !file_present {
            return Err(AssetError::MissingFile);
        }
        let mut list = self;
        list.asset_list.push(AssetEntry { tag, filename, asset_type: AssetType::Image });
        Ok(list)
    }

    /// The declarations made so far, in declaration order.
    pub fn entries(&self) -> (r: &Vec<AssetEntry>)
        ensures
            r@ == self@,
    {
        &self.asset_list
    }
}

} // verus!
