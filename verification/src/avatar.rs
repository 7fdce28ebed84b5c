use vstd::prelude::*;

verus! {

/// One collectible of the catalog, as the ledger's non-fungible data record.
///
/// The record is carried in plain values: the image address as its character
/// string and the numeric identifier as the whole number it denominates.
pub struct DimensionsAvatar {
    pub name: String,
    pub collection_type: String,
    pub key_image_url: String,
    pub nft_id: u64,
}

/// A trade badge record: the ledger epoch it was minted on, as its number.
///
/// The badge resource is declared at instantiation with mint, burn and
/// data-update authority restricted to the deployed component; no operation
/// issues or consumes one yet.
pub struct TradeBadge {
    pub minted_on: u64,
}

/// Builds one avatar record from its four fields.
pub fn make_avatar(name: &str, collection_type: &str, key_image_url: &str, nft_id: u64) -> (a:
    DimensionsAvatar)
    ensures
        a.name@ == name@,
        a.collection_type@ == collection_type@,
        a.key_image_url@ == key_image_url@,
        a.nft_id == nft_id,
{
    DimensionsAvatar {
        name: name.to_string(),
        collection_type: collection_type.to_string(),
        key_image_url: key_image_url.to_string(),
        nft_id,
    }
}

} // verus!
