//! The calls this library makes into other crates. Verus takes the contract of
//! each function here on trust; every doc comment says what is claimed.

pub mod clock;
pub mod cookie;
pub mod ident;
pub mod password;
pub mod session_cache;
