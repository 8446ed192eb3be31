//! The icon handle wrapper.
//!
//! An icon resource is instantiated from an in-memory icon-directory
//! container: the directory header is validated, the entry best matching the
//! requested dimensions is located, and the icon handle is modeled as the
//! located image slice (offset and length) together with a liveness flag.
//! The resource must be released exactly once; duplication is an explicit
//! operation, never an implicit copy.

use vstd::prelude::*;
use crate::Error;

verus! {

/// The 16-bit little-endian value at byte offset `i`.
pub open spec fn le16(b: Seq<u8>, i: int) -> int {
    b[i] + 0x100 * b[i + 1]
}

/// The 32-bit little-endian value at byte offset `i`.
pub open spec fn le32(b: Seq<u8>, i: int) -> int {
    b[i] + 0x100 * b[i + 1] + 0x10000 * b[i + 2] + 0x1000000 * b[i + 3]
}

/// The number of image entries the directory declares.
pub open spec fn dir_count(b: Seq<u8>) -> int {
    le16(b, 4)
}

/// A well-formed icon directory header: the reserved word is zero, the
/// resource type is 1 (icon), at least one entry is declared, and the
/// buffer holds all the declared 16-byte entries.
pub open spec fn dir_ok(b: Seq<u8>) -> bool {
    &&& b.len() >= 6
    &&& le16(b, 0) == 0
    &&& le16(b, 2) == 1
    &&& dir_count(b) >= 1
    &&& b.len() >= 6 + 16 * dir_count(b)
}

/// The declared pixel width of directory entry `k`.
pub open spec fn entry_width(b: Seq<u8>, k: int) -> int {
    b[6 + 16 * k] as int
}

/// The declared pixel height of directory entry `k`.
pub open spec fn entry_height(b: Seq<u8>, k: int) -> int {
    b[6 + 16 * k + 1] as int
}

/// The declared image data size of directory entry `k`.
pub open spec fn entry_size(b: Seq<u8>, k: int) -> int {
    le32(b, 6 + 16 * k + 8)
}

/// The declared image data offset of directory entry `k`.
pub open spec fn entry_offset(b: Seq<u8>, k: int) -> int {
    le32(b, 6 + 16 * k + 12)
}

/// Whether entry `k` declares exactly the requested dimensions.
pub open spec fn entry_matches(b: Seq<u8>, k: int, w: u32, h: u32) -> bool {
    entry_width(b, k) == w && entry_height(b, k) == h
}

/// The first entry at or after `k` matching the requested dimensions, or
/// entry 0 when none matches.
pub open spec fn find_match(b: Seq<u8>, k: int, w: u32, h: u32) -> int
    decreases dir_count(b) - k,
{
    if k < 0 || k >= dir_count(b) {
        0
    } else if entry_matches(b, k, w, h) {
        k
    } else {
        find_match(b, k + 1, w, h)
    }
}

/// The best-matching directory entry for the requested dimensions: the
/// first exact match, or entry 0 as the fallback.
pub open spec fn best_entry(b: Seq<u8>, w: u32, h: u32) -> int {
    find_match(b, 0, w, h)
}

/// Whether entry `k` declares a nonempty image that lies inside the buffer.
pub open spec fn entry_in_bounds(b: Seq<u8>, k: int) -> bool {
    entry_size(b, k) >= 1 && entry_offset(b, k) + entry_size(b, k) <= b.len()
}

/// Whether an icon can be instantiated from `b` for the requested
/// dimensions (0 stands for the platform default).
pub open spec fn icon_ok(b: Seq<u8>, w: u32, h: u32) -> bool {
    dir_ok(b) && entry_in_bounds(b, best_entry(b, w, h))
}

/// The requested dimension an optional argument stands for.
pub open spec fn spec_dim(d: Option<u32>) -> u32 {
    match d {
        Some(v) => v,
        None => 0,
    }
}

/// An icon resource handle, modeled as the image slice it was instantiated
/// from. It must be released exactly once, via `destroy`.
#[derive(Debug)]
pub struct WinHIcon {
    /// Byte offset of the instantiated image inside its source buffer.
    pub offset: usize,
    /// Byte length of the instantiated image.
    pub length: usize,
    /// Whether the underlying resource is still valid.
    pub alive: bool,
}

/// Reads the 16-bit little-endian value at byte offset `i`.
fn read_le16(b: &[u8], i: usize) -> (r: u16)
    requires
        i + 2 <= b@.len(),
    ensures
        r == le16(b@, i as int),
{
    b[i] as u16 + 0x100 * (b[i + 1] as u16)
}

/// Reads the 32-bit little-endian value at byte offset `i`.
fn read_le32(b: &[u8], i: usize) -> (r: u32)
    requires
        i + 4 <= b@.len(),
    ensures
        r == le32(b@, i as int),
{
    b[i] as u32 + 0x100 * (b[i + 1] as u32) + 0x10000 * (b[i + 2] as u32) + 0x1000000 * (b[i + 3]
        as u32)
}

impl WinHIcon {
    /// Instantiates an icon resource from an in-memory icon-directory
    /// buffer, locating the entry that best matches the requested
    /// dimensions (default when omitted). Fails with `IconLoadingFailed`
    /// exactly when the buffer is no well-formed directory or the located
    /// entry declares no usable image.
    pub fn from_buffer(buffer: &'static [u8], width: Option<u32>, height: Option<u32>) -> (r:
        Result<WinHIcon, Error>)
        ensures
            (r is Ok) == icon_ok(buffer@, spec_dim(width), spec_dim(height)),
            r matches Ok(ic) ==> {
                &&& ic.alive
                &&& ic.offset == entry_offset(
                    buffer@,
                    best_entry(buffer@, spec_dim(width), spec_dim(height)),
                )
                &&& ic.length == entry_size(
                    buffer@,
                    best_entry(buffer@, spec_dim(width), spec_dim(height)),
                )
            },
            r matches Err(e) ==> e == Error::IconLoadingFailed,
    {
        let w = match width {
            Some(v) => v,
            None => 0,
        };
        let h = match height {
            Some(v) => v,
            None => 0,
        };
        if buffer.len() < 6 {
            return Err(Error::IconLoadingFailed);
        }
        let reserved = read_le16(buffer, 0);
        let rtype = read_le16(buffer, 2);
        let count = read_le16(buffer, 4);
        if reserved != 0 || rtype != 1 || count == 0 {
            return Err(Error::IconLoadingFailed);
        }
        let dir_len: usize = 6 + 16 * (count as usize);
        if buffer.len() < dir_len {
            return Err(Error::IconLoadingFailed);
        }
        let mut k: usize = 0;
        let mut found: Option<usize> = None;
        while k < count as usize && found.is_none()
            invariant
                dir_ok(buffer@),
                count == dir_count(buffer@),
                buffer@.len() >= 6 + 16 * count,
                k <= count,
                found is None ==> find_match(buffer@, 0, w, h) == find_match(buffer@, k as int, w, h),
                found matches Some(m) ==> m == best_entry(buffer@, w, h) && m < count,
            decreases count - k + (if found is None { 1int } else { 0int }),
        {
            if buffer[6 + 16 * k] as u32 == w && buffer[6 + 16 * k + 1] as u32 == h {
                found = Some(k);
                proof {
                    assert(entry_matches(buffer@, k as int, w, h));
                    assert(find_match(buffer@, k as int, w, h) == k);
                }
            } else {
                proof {
                    assert(!entry_matches(buffer@, k as int, w, h));
                    assert(find_match(buffer@, k as int, w, h) == find_match(
                        buffer@,
                        k + 1,
                        w,
                        h,
                    ));
                }
                k += 1;
            }
        }
        let chosen: usize = match found {
            Some(m) => m,
            None => {
                proof {
                    assert(find_match(buffer@, count as int, w, h) == 0);
                }
                0
            },
        };
        proof {
            assert(chosen == best_entry(buffer@, w, h));
        }
        let size = read_le32(buffer, 6 + 16 * chosen + 8);
        let off = read_le32(buffer, 6 + 16 * chosen + 12);
        if size == 0 {
            return Err(Error::IconLoadingFailed);
        }
        if off as usize > buffer.len() || size as usize > buffer.len() - off as usize {
            return Err(Error::IconLoadingFailed);
        }
        Ok(WinHIcon { offset: off as usize, length: size as usize, alive: true })
    }

    /// Releases the underlying icon resource; it must still be valid, and
    /// this releases it exactly once.
    pub fn destroy(&mut self)
        requires
            old(self).alive,
        ensures
            !final(self).alive,
            final(self).offset == old(self).offset,
            final(self).length == old(self).length,
    {
        self.alive = false;
    }
}

impl Clone for WinHIcon {
    /// Duplicates the underlying resource at the OS level: the duplicate
    /// stands for the same image and is destructible independently of the
    /// original.
    fn clone(&self) -> (r: Self)
        ensures
            r == *self,
    {
        WinHIcon { offset: self.offset, length: self.length, alive: self.alive }
    }
}

} // verus!
