//! Byte ranges and shape checks of operations.
use vstd::prelude::*;
use crate::error::{invalid, SimError};
use crate::ids::DeviceId;
use crate::num::{max_u64, min_u64};
use crate::ops::{AccessPolicyWindow, AccessProperty, KernelBuf, MemcpyOp, MemsetOp};

verus! {

/// `(offset, bytes)` of a buffer in an allocation of `total` bytes; a zero length reaches the end.
#[verifier::allow_in_spec]
pub fn kernel_span(total: u64, buf: KernelBuf) -> Result<(u64, u64), SimError>
    returns
        ({
            if buf.offset > total {
                Err(invalid("kernel range past alloc"))
            } else {
                let n = if buf.bytes == 0 {
                    total.saturating_sub(buf.offset)
                } else {
                    buf.bytes
                };
                if n == 0 || buf.offset.saturating_add(n) > total {
                    Err(invalid("kernel range past alloc"))
                } else {
                    Ok((buf.offset, n))
                }
            }
        }),
{
    if buf.offset > total {
        return Err(invalid("kernel range past alloc"));
    }
    let n: u64 = if buf.bytes == 0 {
        total.saturating_sub(buf.offset)
    } else {
        buf.bytes
    };
    if n == 0 || buf.offset.saturating_add(n) > total {
        return Err(invalid("kernel range past alloc"));
    }
    Ok((buf.offset, n))
}

/// Shape check of a 2D or 3D copy.
#[verifier::allow_in_spec]
pub fn memcpy_2d_check(m: MemcpyOp) -> Result<(), SimError>
    returns
        ({
            if m.is_3d() {
                if m.bytes == 0 {
                    Err(invalid("memcpy3d width"))
                } else if m.height == 0 {
                    Err(invalid("memcpy3d height"))
                } else if m.bytes > m.src_pitch_or_width() || m.bytes > m.dst_pitch_or_width() {
                    Err(invalid("memcpy3d pitch"))
                } else if m.height > m.src_height_or_extent() || m.height > m.dst_height_or_extent() {
                    Err(invalid("memcpy3d height"))
                } else {
                    Ok(())
                }
            } else if !m.is_2d() {
                Ok(())
            } else if m.bytes == 0 {
                Err(invalid("memcpy2d width"))
            } else if m.bytes > m.src_pitch_or_width() || m.bytes > m.dst_pitch_or_width() {
                Err(invalid("memcpy2d pitch"))
            } else {
                Ok(())
            }
        }),
{
    if m.is_3d() {
        if m.bytes == 0 {
            return Err(invalid("memcpy3d width"));
        }
        if m.height == 0 {
            return Err(invalid("memcpy3d height"));
        }
        if m.bytes > m.src_pitch_or_width() || m.bytes > m.dst_pitch_or_width() {
            return Err(invalid("memcpy3d pitch"));
        }
        if m.height > m.src_height_or_extent() || m.height > m.dst_height_or_extent() {
            return Err(invalid("memcpy3d height"));
        }
        return Ok(());
    }
    if !m.is_2d() {
        return Ok(());
    }
    if m.bytes == 0 {
        return Err(invalid("memcpy2d width"));
    }
    if m.bytes > m.src_pitch_or_width() || m.bytes > m.dst_pitch_or_width() {
        return Err(invalid("memcpy2d pitch"));
    }
    Ok(())
}

/// Shape check of a 2D or 3D fill.
#[verifier::allow_in_spec]
pub fn memset_2d_check(op: MemsetOp) -> Result<(), SimError>
    returns
        ({
            if op.is_3d() {
                if op.bytes == 0 {
                    Err(invalid("memset3d width"))
                } else if op.height == 0 {
                    Err(invalid("memset3d height"))
                } else if op.bytes > op.pitch_or_width() {
                    Err(invalid("memset3d pitch"))
                } else if op.height > op.ysize_or_extent() {
                    Err(invalid("memset3d height"))
                } else {
                    Ok(())
                }
            } else if !op.is_2d() {
                Ok(())
            } else if op.bytes == 0 {
                Err(invalid("memset2d width"))
            } else if op.bytes > op.pitch_or_width() {
                Err(invalid("memset2d pitch"))
            } else {
                Ok(())
            }
        }),
{
    if op.is_3d() {
        if op.bytes == 0 {
            return Err(invalid("memset3d width"));
        }
        if op.height == 0 {
            return Err(invalid("memset3d height"));
        }
        if op.bytes > op.pitch_or_width() {
            return Err(invalid("memset3d pitch"));
        }
        if op.height > op.ysize_or_extent() {
            return Err(invalid("memset3d height"));
        }
        return Ok(());
    }
    if !op.is_2d() {
        return Ok(());
    }
    if op.bytes == 0 {
        return Err(invalid("memset2d width"));
    }
    if op.bytes > op.pitch_or_width() {
        return Err(invalid("memset2d pitch"));
    }
    Ok(())
}

/// A hit ratio is at most the whole, and misses do not persist.
#[verifier::allow_in_spec]
pub fn validate_access_policy(window: AccessPolicyWindow) -> Result<(), SimError>
    returns
        ({
            if window.hit_ratio_permille > 1000 {
                Err(invalid("access policy hit ratio"))
            } else if window.miss == AccessProperty::Persisting {
                Err(invalid("access policy miss persisting"))
            } else {
                Ok(())
            }
        }),
{
    if window.hit_ratio_permille > 1000 {
        return Err(invalid("access policy hit ratio"));
    }
    if window.miss == AccessProperty::Persisting {
        return Err(invalid("access policy miss persisting"));
    }
    Ok(())
}

/// Bytes common to `[a0, a0 + an)` and `[b0, b0 + bn)`.
#[verifier::allow_in_spec]
pub fn range_overlap(a0: u64, an: u64, b0: u64, bn: u64) -> u64
    returns
        ({
            let lo = max_u64(a0, b0);
            let hi = min_u64(a0.saturating_add(an), b0.saturating_add(bn));
            hi.saturating_sub(lo)
        }),
{
    let lo: u64 = max_u64(a0, b0);
    let hi: u64 = min_u64(a0.saturating_add(an), b0.saturating_add(bn));
    hi.saturating_sub(lo)
}

/// Bits of a stream memory operation.
#[verifier::allow_in_spec]
pub fn wait_value_mask(bits32: bool) -> u64
    returns
        ({
            if bits32 {
                0xFFFF_FFFFu64
            } else {
                u64::MAX
            }
        }),
{
    if bits32 {
        0xFFFF_FFFFu64
    } else {
        u64::MAX
    }
}

/// Width in bytes of an aligned word at `offset` in an allocation of `total` bytes.
#[verifier::allow_in_spec]
pub fn wait_value_span(total: u64, offset: u64, bits32: bool) -> Result<u64, SimError>
    returns
        ({
            let width = if bits32 {
                4u64
            } else {
                8u64
            };
            if offset % width != 0 {
                Err(invalid("wait-value alignment"))
            } else if offset.saturating_add(width) > total {
                Err(invalid("wait-value span"))
            } else {
                Ok(width)
            }
        }),
{
    let width: u64 = if bits32 {
        4u64
    } else {
        8u64
    };
    if offset % width != 0 {
        return Err(invalid("wait-value alignment"));
    }
    if offset.saturating_add(width) > total {
        return Err(invalid("wait-value span"));
    }
    Ok(width)
}

/// Whether a map of `device` meets `[offset, offset + bytes)`.
pub open spec fn overlaps_map(
    maps: Seq<(DeviceId, u64, u64)>,
    device: DeviceId,
    offset: u64,
    bytes: u64,
) -> bool {
    exists|i: int|
        0 <= i < maps.len() && (#[trigger] maps[i]).0 == device && offset
            < maps[i].1.saturating_add(maps[i].2) && maps[i].1 < offset.saturating_add(bytes)
}

/// Whether any map of `device` meets a range.
pub fn vmm_overlap(
    maps: &Vec<(DeviceId, u64, u64)>,
    device: DeviceId,
    offset: u64,
    bytes: u64,
) -> (r: bool)
    ensures
        r == overlaps_map(maps@, device, offset, bytes),
{
    let end: u64 = offset.saturating_add(bytes);
    let mut i: usize = 0;
    while i < maps.len()
        invariant
            i <= maps@.len(),
            end == offset.saturating_add(bytes),
            forall|j: int|
                0 <= j < i ==> !((#[trigger] maps@[j]).0 == device && offset
                    < maps@[j].1.saturating_add(maps@[j].2) && maps@[j].1 < end),
        decreases maps@.len() - i,
    {
        let (d, o, n) = maps[i];
        if d == device && offset < o.saturating_add(n) && o < end {
            assert(maps@[i as int].0 == device);
            return true;
        }
        i += 1;
    }
    false
}

/// Whether a map of `device` holds the byte `x`.
pub open spec fn byte_mapped(maps: Seq<(DeviceId, u64, u64)>, device: DeviceId, x: int) -> bool {
    exists|i: int|
        0 <= i < maps.len() && (#[trigger] maps[i]).0 == device && maps[i].1 <= x
            < maps[i].1.saturating_add(maps[i].2)
}

/// Whether the maps of `device` hold every byte of `[offset, offset + bytes)`.
pub open spec fn maps_cover(
    maps: Seq<(DeviceId, u64, u64)>,
    device: DeviceId,
    offset: u64,
    bytes: u64,
) -> bool {
    forall|x: int|
        offset <= x < offset.saturating_add(bytes) ==> #[trigger] byte_mapped(maps, device, x)
}

/// End of some map of `device` that holds the byte `x`.
fn map_end(maps: &Vec<(DeviceId, u64, u64)>, device: DeviceId, x: u64) -> (r: Option<u64>)
    ensures
        match r {
            Some(e) => e > x && forall|y: int| x <= y < e ==> #[trigger] byte_mapped(
                maps@,
                device,
                y,
            ),
            None => !byte_mapped(maps@, device, x as int),
        },
{
    let mut i: usize = 0;
    while i < maps.len()
        invariant
            i <= maps@.len(),
            forall|j: int|
                0 <= j < i ==> !((#[trigger] maps@[j]).0 == device && maps@[j].1 <= x
                    < maps@[j].1.saturating_add(maps@[j].2)),
        decreases maps@.len() - i,
    {
        let (d, o, n) = maps[i];
        let e: u64 = o.saturating_add(n);
        if d == device && o <= x && x < e {
            proof {
                assert forall|y: int| x <= y < e implies #[trigger] byte_mapped(
                    maps@,
                    device,
                    y,
                ) by {
                    assert(maps@[i as int].0 == device);
                }
            }
            return Some(e);
        }
        i += 1;
    }
    None
}

/// Whether the maps of `device` cover a range without a hole.
pub fn vmm_covers(
    maps: &Vec<(DeviceId, u64, u64)>,
    device: DeviceId,
    offset: u64,
    bytes: u64,
) -> (r: bool)
    ensures
        r == maps_cover(maps@, device, offset, bytes),
{
    let end: u64 = offset.saturating_add(bytes);
    let mut cur: u64 = offset;
    while cur < end
        invariant
            end == offset.saturating_add(bytes),
            offset <= cur,
            forall|y: int| offset <= y < cur ==> #[trigger] byte_mapped(maps@, device, y),
        decreases u64::MAX - cur,
    {
        match map_end(maps, device, cur) {
            Some(e) => {
                cur = e;
            },
            None => {
                assert(!byte_mapped(maps@, device, cur as int));
                return false;
            },
        }
    }
    true
}

} // verus!
