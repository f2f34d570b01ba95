//! Raw syscall support for a 64-bit MIPS target.
//!
//! A syscall is issued by loading the syscall identifier and up to six
//! argument words into fixed hardware registers and executing the trap
//! instruction; the kernel answers through a result register and a dedicated
//! error-flag register. The trap itself is inline assembly and lives outside
//! this library; what lives here, verified, is everything about that exchange
//! that is plain data:
//!
//! - [`abi`]: the fixed binding of registers to roles (identifier, argument
//!   slots, result, error flag, scratch) and the clobber contract stating
//!   which registers a trap may destroy, for every arity from 0 to 6;
//! - [`encoding`]: the translation of the kernel's two-register answer into
//!   the single machine word shared by all architecture backends: the raw
//!   result unchanged on success, the two's-complement negation of the error
//!   magnitude on failure.

pub mod abi;
pub mod encoding;
