//! A cache of tray-icon pixel data: raw RGBA bytes with their dimensions,
//! keyed by the icon's name. The hosting shell fills it once at startup and
//! reads it whenever the tray state changes.

use vstd::hash_map::StringHashMap;
use vstd::prelude::*;

verus! {

/// The cached pixel data of one icon: RGBA bytes, width, height.
pub struct IconPixels {
    pub data: Vec<u8>,
    pub width: u32,
    pub height: u32,
}

/// The icon cache, viewed as a map from icon name to its pixel data.
pub struct IconCache {
    icons: StringHashMap<IconPixels>,
}

impl View for IconCache {
    type V = Map<Seq<char>, IconPixels>;

    closed spec fn view(&self) -> Map<Seq<char>, IconPixels> {
        self.icons@
    }
}

impl IconCache {
    /// An empty cache.
    pub fn new() -> (r: IconCache)
        ensures
            r@ == Map::<Seq<char>, IconPixels>::empty(),
    {
        IconCache { icons: StringHashMap::new() }
    }

    /// Caches the pixel data under `key`, replacing what the key held before.
    pub fn insert(&mut self, key: String, data: Vec<u8>, width: u32, height: u32)
        ensures
            final(self)@ == old(self)@.insert(key@, (IconPixels { data, width, height })),
    {
        self.icons.insert(key, IconPixels { data, width, height });
    }

    /// The pixel data cached under `key`, if any.
    pub fn get_icon<'a>(&'a self, key: &str) -> (r: Option<&'a IconPixels>)
        ensures
            r matches Some(p) ==> self@.contains_key(key@) && *p == self@[key@],
            r is None ==> !self@.contains_key(key@),
    {
        self.icons.get(key)
    }
}

} // verus!
