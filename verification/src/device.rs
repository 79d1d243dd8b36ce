//! Opening a device or file, and finding out how large it is.

use vstd::prelude::*;

use crate::error::{ErrorView, MkswapError};
use crate::text::{
    behind_plus, denotes_u64, digits_value, parse_u64, trim, trimmed, u64_error_text,
};

verus! {

/// The number by which a btrfs file system is known.
pub const BTRFS_SUPER_MAGIC: i64 = 0x9123_683e;

/// The inode flag that turns off copy-on-write.
pub const FS_NOCOW_FL: i32 = 0x0080_0000;

/// The permissions of a swap file: its owner may read and write it.
pub const SWAP_FILE_MODE: u32 = 0o600;

/// An operation on the device or file that is being opened.
#[derive(Debug, Clone, Copy, PartialEq, Eq, Structural)]
pub enum OpenOperation {
    /// Open it for reading and writing, without truncating it; create it where it is not
    /// there and `create` is set.
    Open { create: bool },
    /// Set its permissions.
    SetPermissions { mode: u32 },
    /// Find out which file system it is on. The reply is the number of the file system.
    QueryFilesystem,
    /// Read its inode flags. The reply is the flags.
    ReadFlags,
    /// Set its inode flags.
    WriteFlags { flags: i32 },
    /// Allocate its space, from its start, filled with zeros.
    Allocate { len: i64 },
}

/// Where opening a device or file stands.
pub enum OpenProgress {
    /// An operation is to be performed.
    Next(OpenOperation),
    /// It is open.
    Opened,
    /// It could not be opened.
    Failed(MkswapError),
}

/// An [`OpenProgress`] as a mathematical value.
pub enum OpenView {
    Next(OpenOperation),
    Opened,
    Failed(ErrorView),
}

impl View for OpenProgress {
    type V = OpenView;

    open spec fn view(&self) -> OpenView {
        match *self {
            OpenProgress::Next(op) => OpenView::Next(op),
            OpenProgress::Opened => OpenView::Opened,
            OpenProgress::Failed(e) => OpenView::Failed(e@),
        }
    }
}

/// The reply to an operation: a number, or the message of an error.
pub open spec fn reply_view(reply: Result<i64, String>) -> Result<i64, Seq<char>> {
    match reply {
        Ok(n) => Ok(n),
        Err(text) => Err(text@),
    }
}

/// What follows the reply to an operation on the device `devname`, for which `filesize`
/// bytes are to be allocated if it is created.
pub open spec fn open_step(
    devname: Seq<char>,
    filesize: u64,
    op: OpenOperation,
    reply: Result<i64, Seq<char>>,
) -> OpenView {
    let allocate = OpenView::Next(OpenOperation::Allocate { len: filesize as i64 });
    match (op, reply) {
        (OpenOperation::Open { .. }, Err(text)) => OpenView::Failed(
            ErrorView::IoError { msg: "failed to open "@ + devname + ": "@ + text },
        ),
        // A file without reserved space is still a file.
        (OpenOperation::Allocate { .. }, _) => OpenView::Opened,
        (_, Err(text)) => OpenView::Failed(ErrorView::IoError { msg: text }),
        (OpenOperation::Open { create }, Ok(_)) => if create {
            OpenView::Next(OpenOperation::SetPermissions { mode: SWAP_FILE_MODE })
        } else {
            OpenView::Opened
        },
        (OpenOperation::SetPermissions { .. }, Ok(_)) => OpenView::Next(
            OpenOperation::QueryFilesystem,
        ),
        (OpenOperation::QueryFilesystem, Ok(magic)) => if magic == BTRFS_SUPER_MAGIC {
            OpenView::Next(OpenOperation::ReadFlags)
        } else {
            allocate
        },
        (OpenOperation::ReadFlags, Ok(flags)) => OpenView::Next(
            OpenOperation::WriteFlags { flags: flags as i32 | FS_NOCOW_FL },
        ),
        (OpenOperation::WriteFlags { .. }, Ok(_)) => allocate,
    }
}

/// The first operation on a device or file that is to be opened, or created.
pub fn open_device(createflag: bool) -> (r: OpenOperation)
    ensures
        r == (OpenOperation::Open { create: createflag }),
{
    OpenOperation::Open { create: createflag }
}

/// Decides what follows the reply to an operation.
pub fn open_device_step(
    devname: &str,
    filesize: u64,
    op: OpenOperation,
    reply: Result<i64, String>,
) -> (r: OpenProgress)
    ensures
        r@ == open_step(devname@, filesize, op, reply_view(reply)),
{
    match (op, reply) {
        (OpenOperation::Open { create }, Ok(_)) => {
            if create {
                OpenProgress::Next(OpenOperation::SetPermissions { mode: SWAP_FILE_MODE })
            } else {
                OpenProgress::Opened
            }
        },
        (OpenOperation::Open { .. }, Err(text)) => {
            let mut msg: String = String::new();
            msg.append("failed to open ");
            msg.append(devname);
            msg.append(": ");
            msg.append(text.as_str());
            assert(msg@ =~= "failed to open "@ + devname@ + ": "@ + text@);
            OpenProgress::Failed(MkswapError::IoError { msg })
        },
        (OpenOperation::SetPermissions { .. }, Ok(_)) => OpenProgress::Next(
            OpenOperation::QueryFilesystem,
        ),
        // check for COW filesystems
        (OpenOperation::QueryFilesystem, Ok(magic)) => {
            if magic == BTRFS_SUPER_MAGIC {
                OpenProgress::Next(OpenOperation::ReadFlags)
            } else {
                OpenProgress::Next(OpenOperation::Allocate { len: filesize as i64 })
            }
        },
        // set NOCOW to disable copy-on-write for proper swapping;
        // without this flag, on COW filesystems, swapon syscall fails
        (OpenOperation::ReadFlags, Ok(flags)) => OpenProgress::Next(
            OpenOperation::WriteFlags { flags: flags as i32 | FS_NOCOW_FL },
        ),
        // allocate to avoid holes in the created file
        (OpenOperation::WriteFlags { .. }, Ok(_)) => OpenProgress::Next(
            OpenOperation::Allocate { len: filesize as i64 },
        ),
        // a file with holes is still open
        (OpenOperation::Allocate { .. }, _) => OpenProgress::Opened,
        (_, Err(text)) => OpenProgress::Failed(MkswapError::IoError { msg: text }),
    }
}

/// Where the size of a block device is to be had from.
pub enum BlockSize {
    /// The device itself told its size, in bytes.
    Known(u64),
    /// The first line of this file tells it, in sectors.
    InFile(String),
}

/// A [`BlockSize`] as a mathematical value.
pub enum BlockSizeView {
    Known(u64),
    InFile(Seq<char>),
}

impl View for BlockSize {
    type V = BlockSizeView;

    open spec fn view(&self) -> BlockSizeView {
        match *self {
            BlockSize::Known(size) => BlockSizeView::Known(size),
            BlockSize::InFile(path) => BlockSizeView::InFile(path@),
        }
    }
}

/// The file in which the system tells the size of the block device `devname`.
pub open spec fn sysfs_path(devname: Seq<char>) -> Seq<char> {
    "/sys/class/block/"@ + devname + "/size"@
}

/// Decides where the size of the block device `devname` is to be had from, given what asking
/// the device returned: a status, negative for a failure, and a size.
pub fn get_blockdev_size(devname: &str, status: i32, size: u64) -> (r: BlockSize)
    ensures
        r@ == if size == 0 || status < 0 {
            BlockSizeView::InFile(sysfs_path(devname@))
        } else {
            BlockSizeView::Known(size)
        },
{
    if size == 0 || status < 0 {
        let mut path: String = String::new();
        path.append("/sys/class/block/");
        path.append(devname);
        path.append("/size");
        assert(path@ =~= sysfs_path(devname@));
        BlockSize::InFile(path)
    } else {
        BlockSize::Known(size)
    }
}

/// The size in bytes of the block device `devname` whose size file starts with `line`: a
/// number of sectors of 512 bytes.
pub open spec fn size_in_line(devname: Seq<char>, line: Seq<char>) -> Result<u64, ErrorView> {
    let number = trimmed(line);
    let sectors = digits_value(behind_plus(number));
    if line.len() == 0 {
        Err(ErrorView::IoError { msg: "empty size file for block device "@ + devname })
    } else if !denotes_u64(number) {
        Err(
            ErrorView::IoError {
                msg: "Invalid size value for block device "@ + devname + ": "@ + u64_error_text(
                    number,
                ),
            },
        )
    } else if sectors * 512 > u64::MAX {
        Err(ErrorView::IoError { msg: "Unable to determine size of block device"@ })
    } else {
        Ok((sectors * 512) as u64)
    }
}

/// A size or an error as mathematical values.
pub open spec fn size_outcome(r: Result<u64, MkswapError>) -> Result<u64, ErrorView> {
    match r {
        Ok(size) => Ok(size),
        Err(e) => Err(e@),
    }
}

/// The size in bytes of the block device `devname`, from the first line of its size file.
pub fn parse_blockdev_size(devname: &str, line: &str) -> (r: Result<u64, MkswapError>)
    ensures
        size_outcome(r) == size_in_line(devname@, line@),
{
    let mut msg: String = String::new();
    if line.is_empty() {
        msg.append("empty size file for block device ");
        msg.append(devname);
        assert(msg@ =~= "empty size file for block device "@ + devname@);
        return Err(MkswapError::IoError { msg });
    }
    match parse_u64(trim(line)) {
        // the value is in 512 byte sectors
        Ok(sectors) => match sectors.checked_mul(512) {
            Some(size) => Ok(size),
            None => {
                msg.append("Unable to determine size of block device");
                assert(msg@ =~= "Unable to determine size of block device"@);
                Err(MkswapError::IoError { msg })
            },
        },
        Err(text) => {
            msg.append("Invalid size value for block device ");
            msg.append(devname);
            msg.append(": ");
            msg.append(text.as_str());
            assert(msg@ =~= "Invalid size value for block device "@ + devname@ + ": "@ + text@);
            Err(MkswapError::IoError { msg })
        },
    }
}

} // verus!
