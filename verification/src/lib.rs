//! The binding discipline of a libvirt client, without the native calls.
//!
//! Every operation on a secret, a storage volume or a stream is one call into
//! the native library, bracketed by two decisions: what is handed to the call,
//! and what its answer means. This crate holds those decisions. An operation
//! first yields a description of the native call to make (see [`native`]);
//! whoever links the native library performs it and hands the answer to a
//! `reply` function, which tests the failure sentinel, converts the answer and
//! says in a [`native::Step`] what is left to do.

pub mod connect;
pub mod error;
pub mod native;
pub mod secret;
pub mod storage_pool;
pub mod storage_vol;
pub mod stream;
pub mod text;
pub mod typedparam;
