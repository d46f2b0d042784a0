//! A fixed two-octet message header for tagging frames on a peer-to-peer
//! channel. The first octet packs two independent control fields into its
//! high nibble: a task discriminator (the form, bits 7 and 6) and a
//! payload-protection mode (bits 5 and 4). The remaining bits of octet 0
//! and all of octet 1 are reserved and preserved by every mutation.

pub mod flags;
pub mod header;

pub use flags::DecodeError;
pub use flags::Form;
pub use flags::Mode;
pub use header::Header;
