//! IPv4 network interface enumeration: the platform-independent part.
//!
//! The operating system hands out its interface records through pointers; code
//! outside this library copies each record into the plain types defined here and
//! the verified functions below decide which records become interfaces and what
//! those interfaces say.
//!
//! The two facilities keep their own record types and predicates: [`linux`] reads
//! a bitmask of flags, so "up" there means that the link layer detected a carrier
//! (`is_lower_up`); [`winders`] reads an interface type and an operational status,
//! so "up" there means able to pass packets (`is_up`). `is_link_local` depends on
//! the address alone and is the same on both.
use vstd::prelude::*;

pub mod address;
pub mod text;
pub mod linux;
pub mod winders;
pub mod retry;
pub mod traversal;

verus! {

} // verus!
