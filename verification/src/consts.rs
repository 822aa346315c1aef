pub mod item;
pub mod platform_route;
pub mod profile_icon;
pub mod queue;

use vstd::prelude::*;
use crate::text::{push_signed_decimal, push_str, signed_decimal};

verus! {

/// The address of a static asset: `/assets/{dir}/{id}.avif`.
pub open spec fn asset_url(dir: Seq<char>, id: i32) -> Seq<char> {
    "/assets/"@ + dir + "/"@ + signed_decimal(id as int) + ".avif"@
}

/// Something with an image among the static assets, found by its directory and its id.
pub trait HasStaticAsset {
    /// The directory of the assets of this kind.
    spec fn asset_dir() -> Seq<char>;

    /// The id of the asset.
    spec fn asset_id(&self) -> i32;

    /// The directory of the assets of this kind, such as `items`.
    fn path() -> (res: &'static str)
        ensures
            res@ == Self::asset_dir();

    /// The id of the asset.
    fn get_id(&self) -> (res: i32)
        ensures
            res == self.asset_id();

    /// The address of the asset's image.
    fn get_static_asset_url(&self) -> (res: String)
        ensures
            res@ == asset_url(Self::asset_dir(), self.asset_id()),
    {
        let mut out = String::new();
        push_str(&mut out, "/assets/");
        push_str(&mut out, Self::path());
        push_str(&mut out, "/");
        let id = self.get_id();
        push_signed_decimal(&mut out, id as i64);
        push_str(&mut out, ".avif");
        out
    }
}

impl HasStaticAsset for item::Item {
    open spec fn asset_dir() -> Seq<char> {
        "items"@
    }

    open spec fn asset_id(&self) -> i32 {
        self.0 as i32
    }

    fn path() -> (res: &'static str) {
        "items"
    }

    fn get_id(&self) -> (res: i32) {
        #[verifier::truncate]
        (self.0 as i32)
    }
}

impl HasStaticAsset for profile_icon::ProfileIcon {
    open spec fn asset_dir() -> Seq<char> {
        "profile_icons"@
    }

    open spec fn asset_id(&self) -> i32 {
        self.0 as i32
    }

    fn path() -> (res: &'static str) {
        "profile_icons"
    }

    fn get_id(&self) -> (res: i32) {
        self.0 as i32
    }
}

} // verus!
