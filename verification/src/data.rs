//! Constants and plain records of the Linux C ABI that the other modules use.

use vstd::prelude::*;

verus! {

/// `fcntl` command: set the descriptor flags.
pub const F_SETFD: i32 = 2;
/// `fcntl` command: get the descriptor flags.
pub const F_GETFD: i32 = 1;
/// `fcntl` command: get the status flags.
pub const F_GETFL: i32 = 3;
/// `fcntl` command: set the status flags.
pub const F_SETFL: i32 = 4;
/// `fcntl` command: duplicate with close-on-exec.
pub const F_DUPFD_CLOEXEC: i32 = 1030;

/// `lseek` origin: the start of the file.
pub const SEEK_SET: i32 = 0;
/// `lseek` origin: the current position.
pub const SEEK_CUR: i32 = 1;
/// `lseek` origin: the end of the file.
pub const SEEK_END: i32 = 2;

/// Directory entry type: unknown.
pub const DT_UNKNOWN: u8 = 0;
/// Directory entry type: named pipe.
pub const DT_FIFO: u8 = 1;
/// Directory entry type: character device.
pub const DT_CHR: u8 = 2;
/// Directory entry type: directory.
pub const DT_DIR: u8 = 4;
/// Directory entry type: block device.
pub const DT_BLK: u8 = 6;
/// Directory entry type: regular file.
pub const DT_REG: u8 = 8;
/// Directory entry type: symbolic link.
pub const DT_LNK: u8 = 10;
/// Directory entry type: socket.
pub const DT_SOCK: u8 = 12;

/// File mode: the bits that give the file type.
pub const S_IFMT: u32 = 0o170000;
/// File type: socket.
pub const S_IFSOCK: u32 = 0o140000;
/// File type: symbolic link.
pub const S_IFLNK: u32 = 0o120000;
/// File type: regular file.
pub const S_IFREG: u32 = 0o100000;
/// File type: block device.
pub const S_IFBLK: u32 = 0o060000;
/// File type: directory.
pub const S_IFDIR: u32 = 0o040000;
/// File type: character device.
pub const S_IFCHR: u32 = 0o020000;
/// File type: named pipe.
pub const S_IFIFO: u32 = 0o010000;

/// `open` flag: create the file if it does not exist.
pub const O_CREAT: i32 = 0o100;

/// `posix_fadvise` advice: no particular pattern.
pub const POSIX_FADV_NORMAL: i32 = 0;
/// `posix_fadvise` advice: random access.
pub const POSIX_FADV_RANDOM: i32 = 1;
/// `posix_fadvise` advice: sequential access.
pub const POSIX_FADV_SEQUENTIAL: i32 = 2;
/// `posix_fadvise` advice: the data will be needed soon.
pub const POSIX_FADV_WILLNEED: i32 = 3;
/// `posix_fadvise` advice: the data will not be needed soon.
pub const POSIX_FADV_DONTNEED: i32 = 4;
/// `posix_fadvise` advice: the data will be accessed once.
pub const POSIX_FADV_NOREUSE: i32 = 5;

/// Offset of the name within a `dirent64` record.
pub const DIRENT_NAME_OFFSET: usize = 19;
/// Capacity of the name field of a `dirent64` record.
pub const DIRENT_NAME_LEN: usize = 256;

/// `ioctl` request: get the terminal attributes.
pub const TCGETS: i64 = 0x5401;

/// `mmap` flag: the mapping is not backed by a file.
pub const MAP_ANONYMOUS: i32 = 32;

/// `sysconf` name: the page size.
pub const _SC_PAGESIZE: i32 = 30;
/// `sysconf` name: the number of online processors.
pub const _SC_NPROCESSORS_ONLN: i32 = 84;

/// Error number: operation not permitted.
pub const EPERM: i32 = 1;
/// Error number: input/output error.
pub const EIO: i32 = 5;
/// Error number: bad file descriptor.
pub const EBADF: i32 = 9;
/// Error number: out of memory.
pub const ENOMEM: i32 = 12;
/// Error number: bad address.
pub const EFAULT: i32 = 14;
/// Error number: invalid argument.
pub const EINVAL: i32 = 22;
/// Error number: not a terminal.
pub const ENOTTY: i32 = 25;
/// Error number: result out of range.
pub const ERANGE: i32 = 34;
/// Error number: value too large for the data type.
pub const EOVERFLOW: i32 = 75;
/// Error number: illegal byte sequence.
pub const EILSEQ: i32 = 84;

/// `getaddrinfo` error: the name does not resolve.
pub const EAI_NONAME: i32 = -2;
/// `getaddrinfo` error: a system error, reported in `errno`.
pub const EAI_SYSTEM: i32 = -11;

/// `utmpx` entry type: change of the run level.
pub const RUN_LVL: i16 = 1;
/// `utmpx` entry type: time of the system boot.
pub const BOOT_TIME: i16 = 2;
/// `utmpx` entry type: time after a change of the clock.
pub const NEW_TIME: i16 = 3;
/// `utmpx` entry type: time before a change of the clock.
pub const OLD_TIME: i16 = 4;
/// `utmpx` entry type: process spawned by init.
pub const INIT_PROCESS: i16 = 5;
/// `utmpx` entry type: session leader of a login.
pub const LOGIN_PROCESS: i16 = 6;
/// `utmpx` entry type: normal user process.
pub const USER_PROCESS: i16 = 7;
/// `utmpx` entry type: terminated process.
pub const DEAD_PROCESS: i16 = 8;

/// An event record of `epoll`, laid out as the kernel expects it.
pub struct EpollEvent {
    /// The event mask.
    pub events: u32,
    /// The user data attached to the event.
    pub u64: u64,
}

} // verus!
