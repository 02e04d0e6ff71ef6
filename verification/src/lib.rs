//! A minimal on-chain NFT registry: mints tokens with caller-supplied
//! metadata, records aggregate platform statistics, and allows authorized
//! ownership transfer. The registry is a pure state-transition core over an
//! explicit store value; the host adapter (storage persistence, signature
//! verification, the ledger clock) lives outside the verified library and
//! hands plain values in and out.

pub mod identity;
pub mod registry;
pub mod store;
pub mod token;

pub use identity::Address;
pub use identity::AuthContext;
pub use registry::NFTMintingContract;
pub use registry::RegistryError;
pub use store::TokenStore;
pub use token::NFT;
pub use token::NFTBook;
pub use token::PlatformStats;
