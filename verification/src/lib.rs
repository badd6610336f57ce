//! A bridge between the assets of a cross-chain protocol and the collections
//! and tokens of one chain.
//!
//! The protocol names an asset by the location of its reserve, and one
//! instance of it by an opaque identifier. The chain keeps tokens in
//! numbered collections. This crate holds the registry that binds the two
//! to each other, decides whether an asset is local or foreign, and decides
//! what a deposit, a withdrawal, a transfer and a registration ask of the
//! chain's collections. It also holds the settings of collections and their
//! properties, the weights of some operations, and the reports on bases of
//! composable tokens.
//!
//! The modules, from the ground up:
//! - `ids`, `location`, `asset`, `locality`, `error`: the values that the
//!   rest speaks of;
//! - `registry`: the tables of reserve locations and of asset instances;
//! - `pallet`: the state of the bridge, and the resolution of assets;
//! - `registration`, `bridge`, `currency`, `trader`: the operations;
//! - `laws`: what holds of all of this, whatever is registered;
//! - `collection`, `property`, `rpc_collection`, `weights`, `rmrk`: the
//!   chain's own data;
//! - `bounded`, `encoding`: what is taken on trust from other crates, as is
//!   the comparison and the encoding of junctions in `location`.

pub mod asset;
pub mod bounded;
pub mod bridge;
pub mod collection;
pub mod currency;
pub mod encoding;
pub mod error;
pub mod ids;
pub mod laws;
pub mod locality;
pub mod location;
pub mod pallet;
pub mod property;
pub mod registration;
pub mod registry;
pub mod rmrk;
pub mod rpc_collection;
pub mod trader;
pub mod weights;
