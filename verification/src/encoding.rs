//! Byte encodings, as the libraries of the cross-chain protocol and of the
//! chain's codec produce them.

use vstd::prelude::*;
use parity_scale_codec::{Compact, Encode};
use crate::asset::AssetInstance;

verus! {

/// The bytes that stand for `instance` on the wire and in token properties.
pub uninterp spec fn asset_instance_encoding(instance: AssetInstance) -> Seq<u8>;

/// Encodes `instance` with `parity_scale_codec::Encode::encode`, on the
/// `staging_xcm::v3::AssetInstance` of the same variant and contents. The
/// contract only gives the result its name: the encoding is a function of the
/// instance alone.
#[verifier::external_body]
pub(crate) fn encode_asset_instance(instance: &AssetInstance) -> (bytes: Vec<u8>)
    ensures
        bytes@ == asset_instance_encoding(*instance),
{
    let outside = match *instance {
        AssetInstance::Undefined => staging_xcm::v3::AssetInstance::Undefined,
        AssetInstance::Index(index) => staging_xcm::v3::AssetInstance::Index(index),
        AssetInstance::Array4(datum) => staging_xcm::v3::AssetInstance::Array4(datum),
        AssetInstance::Array8(datum) => staging_xcm::v3::AssetInstance::Array8(datum),
        AssetInstance::Array16(datum) => staging_xcm::v3::AssetInstance::Array16(datum),
        AssetInstance::Array32(datum) => staging_xcm::v3::AssetInstance::Array32(datum),
    };
    outside.encode()
}

/// The number of bytes that the compact encoding of a number takes: one,
/// two or four bytes for numbers below 2^6, 2^14 and 2^30, five for larger
/// ones.
pub open spec fn compact_len(value: u32) -> u32 {
    if value <= 0x3f {
        1
    } else if value <= 0x3fff {
        2
    } else if value <= 0x3fff_ffff {
        4
    } else {
        5
    }
}

/// `parity_scale_codec::Encode::encoded_size` of `Compact<u32>`: the number
/// of bytes of the compact encoding of `value`.
#[verifier::external_body]
pub(crate) fn compact_encoded_size(value: u32) -> (size: usize)
    ensures
        size == compact_len(value),
{
    Compact(value).encoded_size()
}

} // verus!
