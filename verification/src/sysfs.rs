//! The attribute exposure layer: access modes, show/store capability sets,
//! and the text-emission helper every `show` implementation uses.

use crate::error::SystemError;
use vstd::prelude::*;

verus! {

/// The access mode an attribute is exposed with, as permission bits.
#[derive(Clone, Copy, Debug, PartialEq, Eq, Structural)]
pub struct ModeType {
    /// The raw permission bits.
    pub bits: u32,
}

impl ModeType {
    /// The read-only mode attributes without a write path are exposed with.
    pub open spec fn spec_ro() -> ModeType {
        ModeType { bits: 0o444 }
    }

    /// The read-only mode, as a value.
    pub fn ro() -> (m: ModeType)
        ensures
            m == ModeType::spec_ro(),
    {
        ModeType { bits: 0o444 }
    }
}

/// The capability set of an attribute: whether it supports being shown,
/// being stored to, or both.
#[derive(Clone, Copy, Debug, PartialEq, Eq, Structural)]
pub struct SysFSOpsSupport {
    /// Whether the attribute supports `show`.
    pub show: bool,
    /// Whether the attribute supports `store`.
    pub store: bool,
}

impl SysFSOpsSupport {
    /// The capability set that supports `show` alone.
    pub open spec fn spec_attr_show() -> SysFSOpsSupport {
        SysFSOpsSupport { show: true, store: false }
    }

    /// The capability set that supports `show` alone.
    pub fn attr_show() -> (s: SysFSOpsSupport)
        ensures
            s == SysFSOpsSupport::spec_attr_show(),
    {
        SysFSOpsSupport { show: true, store: false }
    }

    /// The capability set that supports `store` alone.
    pub fn attr_store() -> (s: SysFSOpsSupport)
        ensures
            s == (SysFSOpsSupport { show: false, store: true }),
    {
        SysFSOpsSupport { show: false, store: true }
    }

    /// The capability set that supports both operations.
    pub fn attr_show_store() -> (s: SysFSOpsSupport)
        ensures
            s == (SysFSOpsSupport { show: true, store: true }),
    {
        SysFSOpsSupport { show: true, store: true }
    }
}

/// Serializes `content` into the caller-supplied buffer.
///
/// The buffer keeps its length; on success its first `content.len()` bytes
/// are the content and the rest is untouched, and the number of bytes
/// written is returned.  A buffer too small for the content is rejected
/// without being touched.
pub fn sysfs_emit_str(buf: &mut Vec<u8>, content: &Vec<u8>) -> (r: Result<usize, SystemError>)
    ensures
        r is Ok <==> content@.len() <= old(buf)@.len(),
        r matches Ok(n) ==> n == content@.len()
            && final(buf)@ == content@ + old(buf)@.skip(content@.len() as int),
        r is Err ==> r == Err::<usize, SystemError>(SystemError::EINVAL)
            && final(buf)@ == old(buf)@,
{
    if content.len() > buf.len() {
        return Err(SystemError::EINVAL);
    }
    let mut i: usize = 0;
    while i < content.len()
        invariant
            i <= content.len(),
            content@.len() <= buf@.len(),
            buf@.len() == old(buf)@.len(),
            buf@ == content@.subrange(0, i as int) + old(buf)@.skip(i as int),
        decreases content.len() - i,
    {
        buf.set(i, content[i]);
        proof {
            assert(buf@ =~= content@.subrange(0, i + 1 as int) + old(buf)@.skip(i + 1 as int));
        }
        i = i + 1;
    }
    proof {
        assert(content@.subrange(0, content@.len() as int) == content@);
    }
    Ok(content.len())
}

} // verus!
