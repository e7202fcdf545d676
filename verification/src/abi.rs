//! Plain values that requests are made of.

use vstd::prelude::*;

verus! {

/// Number by which a request names a file or a directory.
pub type Inode = u64;

/// Number by which a request names an open file or directory.
pub type Handle = u64;

/// The inode of the root directory of every file system.
pub const ROOT_ID: u64 = 1;

/// The largest inode number that a file system may use below the virtual file system layer,
/// which keeps the top 8 bits of an inode for itself.
pub const VFS_MAX_INO: u64 = 0xff_ffff_ffff_ffff;

/// Who makes a request.
#[derive(Clone, Copy, Debug, PartialEq, Eq, Structural)]
pub struct Context {
    /// User id of the calling process.
    pub uid: u32,
    /// Group id of the calling process.
    pub gid: u32,
    /// The calling process.
    pub pid: i32,
}

/// Arguments of a request to create and open a file.
#[derive(Clone, Copy, Debug, PartialEq, Eq, Structural)]
pub struct CreateIn {
    /// Flags to open the file with.
    pub flags: u32,
    /// Permissions of the new file.
    pub mode: u32,
    /// File mode creation mask of the caller.
    pub umask: u32,
    /// Flags of the fuse protocol.
    pub fuse_flags: u32,
}

/// Which attributes a request to change attributes sets.
#[derive(Clone, Copy, Debug, PartialEq, Eq, Structural)]
pub struct SetattrValid {
    /// One bit for each attribute.
    pub bits: u32,
}

/// How the kernel is to treat a file that was opened.
#[derive(Clone, Copy, Debug, PartialEq, Eq, Structural)]
pub struct OpenOptions {
    /// One bit for each option.
    pub bits: u32,
}

} // verus!
