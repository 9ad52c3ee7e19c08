//! A virtual-pet core: a time-decayed stat engine and an
//! interaction/token-settlement state machine, together with the
//! boundary contract for collectible record minting.
//!
//! Pets carry four bounded stats that drift with elapsed time; owners
//! spend or earn a fungible token by performing interactions. Every
//! transition here is pure: callers load a pet record, hand it to these
//! functions together with the current time and a token balance, and
//! persist what comes back.

pub mod collectibles;
pub mod decay;
pub mod interact;
pub mod pet;

pub use interact::ActionType;
pub use interact::PetError;
pub use interact::PetInteracted;
pub use pet::GlobalState;
pub use pet::Pet;
pub use pet::PetStats;
