//! Verified core of a cross-system governance "contract upgrade" instruction.
//!
//! An externally verified envelope carries a governance decree. This library
//! decodes the decree, checks that it targets this deployment and the
//! caller-supplied code buffer, enforces exactly-once consumption of each
//! envelope, and produces the fully-determined invocation of the privileged
//! code-replacement primitive. The host performs I/O and the privileged call;
//! every decision is made and proved here.

pub mod authority;
pub mod bytes;
pub mod codec;
pub mod digest;
pub mod error;
pub mod laws;
pub mod processor;
pub mod registry;
pub mod validator;

pub use error::GovernanceError;
pub use processor::{process_upgrade, upgrade_contract, UpgradeContract, UpgradeInvocation};
pub use registry::ConsumedRegistry;
pub use validator::{handle_access_control, UpgradeDecree};
