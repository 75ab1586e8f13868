//! A single-threaded shared pointer that memoizes the conversion of the value
//! it points to into an OCaml value, once per conversion generation.
//!
//! `cache` holds one payload and a one-slot memo: the handle of the last
//! conversion and the generation of the arena it was made in. A lookup in any
//! other generation finds nothing, so resetting an arena needs no sweep over
//! the values that were converted into it.
//!
//! `rc` shares such cells between pointers. The cells live in an `RcOcHeap`,
//! which keeps the number of pointers to each: `RcOc::new` and `RcOc::clone`
//! add an owner, `RcOc::release` removes one. Write access (`get_mut`,
//! `make_mut`) is given in place only to the sole owner of a cell, and always
//! empties the memo; `make_mut` on a shared cell moves the pointer to a fresh
//! copy and leaves the other owners untouched.
//!
//! `laws` proves how these operations relate.
pub mod cache;
pub mod laws;
pub mod rc;
