//! Verified streaming implementations of a family of cryptographic hash
//! functions: MD2, MD4, MD5, RIPEMD-160, RIPEMD-320, Streebog-256/512,
//! Whirlpool, and the SHA-512 compression primitive.
//!
//! Every hasher follows the same incremental protocol: bytes are buffered
//! into fixed-size blocks, each completed block is folded into the running
//! state by the algorithm's compression function, and `finalize` pads the
//! last partial block as the algorithm prescribes before emitting the
//! digest. The contracts relate every digest to a specification-level
//! function of the exact byte sequence fed in, so chunking can never
//! affect the result.

pub mod buffer;
pub mod md2;
pub mod md2_table;
pub mod md4;
pub mod md5;
pub mod pad;
pub mod ripemd;
pub mod ripemd160;
pub mod ripemd320;
pub mod sha512;
pub mod streebog;
pub mod streebog_tables;
pub mod whirlpool;
pub mod whirlpool_tables;
pub mod words;

pub use buffer::{BlockBuffer16, BlockBuffer64};
pub use md2::{Md2, Md2Core};
pub use md4::{Md4, Md4Core};
pub use md5::{Md5, Md5Core};
pub use ripemd160::{Ripemd160, Ripemd160Core};
pub use ripemd320::{Ripemd320, Ripemd320Core};
pub use sha512::compress512;
pub use streebog::{Streebog256, Streebog256Core, Streebog512, Streebog512Core, StreebogState};
pub use whirlpool::{Whirlpool, WhirlpoolCore};
