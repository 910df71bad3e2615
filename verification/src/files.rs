//! The decisions behind the file-system entry points: how a request is
//! decoded from its C arguments, when it is refused before any system call,
//! and how what the system answered is laid out for the C caller.

use vstd::prelude::*;
use crate::data::{
    F_GETFL, F_SETFL, F_GETFD, F_SETFD, F_DUPFD_CLOEXEC, SEEK_SET, SEEK_CUR, SEEK_END,
    DT_UNKNOWN, DT_FIFO, DT_CHR, DT_DIR, DT_BLK, DT_REG, DT_LNK, DT_SOCK,
    S_IFMT, S_IFSOCK, S_IFLNK, S_IFREG, S_IFBLK, S_IFDIR, S_IFCHR, S_IFIFO, O_CREAT,
    POSIX_FADV_NORMAL, POSIX_FADV_RANDOM, POSIX_FADV_SEQUENTIAL, POSIX_FADV_WILLNEED,
    POSIX_FADV_DONTNEED, POSIX_FADV_NOREUSE, DIRENT_NAME_OFFSET, DIRENT_NAME_LEN,
    EINVAL, EBADF, EFAULT, ERANGE, MAP_ANONYMOUS,
};

verus! {

/// A `fcntl` request, decoded from its command and its argument.
pub enum FcntlRequest {
    /// `F_GETFL`.
    GetStatusFlags,
    /// `F_SETFL` with the given status flags.
    SetStatusFlags(u32),
    /// `F_GETFD`.
    GetDescriptorFlags,
    /// `F_SETFD` with the given descriptor flags.
    SetDescriptorFlags(u32),
    /// `F_DUPFD_CLOEXEC` with the lowest descriptor number to use.
    DupCloexec(i32),
}

/// The request that `fcntl(fd, cmd, arg)` makes, or nothing for a command
/// that is not supported.
pub open spec fn fcntl_request_of(cmd: i32, arg: i32) -> Option<FcntlRequest> {
    if cmd == F_GETFL {
        Some(FcntlRequest::GetStatusFlags)
    } else if cmd == F_SETFL {
        Some(FcntlRequest::SetStatusFlags(arg as u32))
    } else if cmd == F_GETFD {
        Some(FcntlRequest::GetDescriptorFlags)
    } else if cmd == F_SETFD {
        Some(FcntlRequest::SetDescriptorFlags(arg as u32))
    } else if cmd == F_DUPFD_CLOEXEC {
        Some(FcntlRequest::DupCloexec(arg))
    } else {
        None
    }
}

/// Decodes a `fcntl` command and its argument; nothing for a command that
/// is not supported (the C entry point aborts on those). Every flag word is
/// accepted as it is: the status and descriptor flag types of `rustix`
/// declare all bits as known, so converting a flag word never fails.
pub fn fcntl_request(cmd: i32, arg: i32) -> (r: Option<FcntlRequest>)
    ensures
        r == fcntl_request_of(cmd, arg),
{
    if cmd == F_GETFL {
        Some(FcntlRequest::GetStatusFlags)
    } else if cmd == F_SETFL {
        Some(FcntlRequest::SetStatusFlags(arg as u32))
    } else if cmd == F_GETFD {
        Some(FcntlRequest::GetDescriptorFlags)
    } else if cmd == F_SETFD {
        Some(FcntlRequest::SetDescriptorFlags(arg as u32))
    } else if cmd == F_DUPFD_CLOEXEC {
        Some(FcntlRequest::DupCloexec(arg))
    } else {
        None
    }
}

/// What `fcntl` returns and sets `errno` to once the request was carried
/// out: the flags or the new descriptor, `0` after a change of flags, or `-1`
/// with the error.
pub fn fcntl_reply(request: &FcntlRequest, outcome: Result<u32, i32>) -> (r: (i32, Option<i32>))
    ensures
        r == (match outcome {
            Ok(v) => match request {
                FcntlRequest::SetStatusFlags(_) => (0i32, None::<i32>),
                FcntlRequest::SetDescriptorFlags(_) => (0i32, None::<i32>),
                _ => (v as i32, None::<i32>),
            },
            Err(e) => (-1i32, Some(e)),
        }),
{
    match outcome {
        Ok(v) => match request {
            FcntlRequest::SetStatusFlags(_) => (0, None),
            FcntlRequest::SetDescriptorFlags(_) => (0, None),
            _ => (v as i32, None),
        },
        Err(e) => (-1, Some(e)),
    }
}

/// Where `lseek` moves the position to.
pub enum SeekTarget {
    /// This many bytes from the start.
    Start(u64),
    /// This many bytes from the current position.
    Current(i64),
    /// This many bytes from the end.
    End(i64),
}

/// The target of `lseek64(fd, offset, whence)`, or nothing for an origin that
/// is not one of the three (the C entry point aborts on those).
pub fn seek_target(offset: i64, whence: i32) -> (r: Option<SeekTarget>)
    ensures
        r == (if whence == SEEK_SET {
            Some(SeekTarget::Start(offset as u64))
        } else if whence == SEEK_CUR {
            Some(SeekTarget::Current(offset))
        } else if whence == SEEK_END {
            Some(SeekTarget::End(offset))
        } else {
            None::<SeekTarget>
        }),
{
    if whence == SEEK_SET {
        Some(SeekTarget::Start(offset as u64))
    } else if whence == SEEK_CUR {
        Some(SeekTarget::Current(offset))
    } else if whence == SEEK_END {
        Some(SeekTarget::End(offset))
    } else {
        None
    }
}

/// The type of a file system object.
pub enum FileKind {
    /// A regular file.
    RegularFile,
    /// A directory.
    Directory,
    /// A symbolic link.
    Symlink,
    /// A named pipe.
    Fifo,
    /// A socket.
    Socket,
    /// A character device.
    CharacterDevice,
    /// A block device.
    BlockDevice,
    /// Anything else.
    Unknown,
}

/// The type that the `S_IFMT` bits of `mode` give.
pub open spec fn file_kind_of(mode: u32) -> FileKind {
    let t = mode & S_IFMT;
    if t == S_IFREG {
        FileKind::RegularFile
    } else if t == S_IFDIR {
        FileKind::Directory
    } else if t == S_IFLNK {
        FileKind::Symlink
    } else if t == S_IFIFO {
        FileKind::Fifo
    } else if t == S_IFSOCK {
        FileKind::Socket
    } else if t == S_IFCHR {
        FileKind::CharacterDevice
    } else if t == S_IFBLK {
        FileKind::BlockDevice
    } else {
        FileKind::Unknown
    }
}

/// The type of the node that `mknod` is asked to create with `mode`.
pub fn file_kind(mode: u32) -> (r: FileKind)
    ensures
        r == file_kind_of(mode),
{
    let t = mode & S_IFMT;
    if t == S_IFREG {
        FileKind::RegularFile
    } else if t == S_IFDIR {
        FileKind::Directory
    } else if t == S_IFLNK {
        FileKind::Symlink
    } else if t == S_IFIFO {
        FileKind::Fifo
    } else if t == S_IFSOCK {
        FileKind::Socket
    } else if t == S_IFCHR {
        FileKind::CharacterDevice
    } else if t == S_IFBLK {
        FileKind::BlockDevice
    } else {
        FileKind::Unknown
    }
}

/// The permission bits of `mode`: all but the file type, as `chmod`,
/// `mknod` and `open` pass them on.
pub fn permission_bits(mode: u32) -> (r: u32)
    ensures
        r == mode & !S_IFMT,
{
    mode & !S_IFMT
}

/// The mode with which `mkfifo` creates its node.
pub fn fifo_mode(mode: u32) -> (r: u32)
    ensures
        r == mode | S_IFIFO,
{
    mode | S_IFIFO
}

/// Whether `open` with `flags` reads a mode argument: only when it may
/// create the file.
pub fn open_takes_mode(flags: i32) -> (r: bool)
    ensures
        r == (flags & O_CREAT == O_CREAT),
{
    flags & O_CREAT == O_CREAT
}

/// The mode that `open` passes on: the permission bits of `mode` when the
/// flags ask to create the file, none otherwise.
pub fn open_mode(flags: i32, mode: u32) -> (r: u32)
    ensures
        r == (if flags & O_CREAT == O_CREAT {
            mode & !S_IFMT
        } else {
            0u32
        }),
{
    if open_takes_mode(flags) {
        permission_bits(mode)
    } else {
        0
    }
}

/// Whether `mmap` with `flags` makes an anonymous mapping, and the flags
/// that are passed on without `MAP_ANONYMOUS`.
pub fn mmap_flags(flags: i32) -> (r: (bool, i32))
    ensures
        r.0 == (flags & MAP_ANONYMOUS == MAP_ANONYMOUS),
        r.1 == flags & !MAP_ANONYMOUS,
{
    (flags & MAP_ANONYMOUS == MAP_ANONYMOUS, flags & !MAP_ANONYMOUS)
}

/// The `d_type` code of a directory entry of the given type.
pub open spec fn dirent_type_of(kind: FileKind) -> u8 {
    match kind {
        FileKind::RegularFile => DT_REG,
        FileKind::Directory => DT_DIR,
        FileKind::Symlink => DT_LNK,
        FileKind::Fifo => DT_FIFO,
        FileKind::Socket => DT_SOCK,
        FileKind::CharacterDevice => DT_CHR,
        FileKind::BlockDevice => DT_BLK,
        FileKind::Unknown => DT_UNKNOWN,
    }
}

/// The `d_type` code of a directory entry of the given type.
pub fn dirent_type(kind: &FileKind) -> (r: u8)
    ensures
        r == dirent_type_of(*kind),
{
    match kind {
        FileKind::RegularFile => DT_REG,
        FileKind::Directory => DT_DIR,
        FileKind::Symlink => DT_LNK,
        FileKind::Fifo => DT_FIFO,
        FileKind::Socket => DT_SOCK,
        FileKind::CharacterDevice => DT_CHR,
        FileKind::BlockDevice => DT_BLK,
        FileKind::Unknown => DT_UNKNOWN,
    }
}

/// A `dirent64` record.
pub struct DirEntry {
    /// The inode number.
    pub ino: u64,
    /// The offset of the next entry (not tracked: always `0`).
    pub off: i64,
    /// The length of the record: the name's offset, the name and its NUL.
    pub reclen: u16,
    /// The type code.
    pub d_type: u8,
    /// The name field: the name, cut to the field's capacity, padded with
    /// NUL bytes.
    pub name: Vec<u8>,
}

/// The name field of a `dirent64` record that holds `name`.
pub open spec fn name_field(name: Seq<u8>) -> Seq<u8> {
    Seq::new(DIRENT_NAME_LEN as nat, |i: int| if i < name.len() { name[i] } else { 0u8 })
}

/// The `dirent64` record of an entry with inode `ino`, type `kind` and name
/// `name`.
pub fn make_dirent(ino: u64, kind: &FileKind, name: &[u8]) -> (r: DirEntry)
    requires
        DIRENT_NAME_OFFSET + name@.len() + 1 <= u16::MAX,
    ensures
        r.ino == ino,
        r.off == 0,
        r.reclen == DIRENT_NAME_OFFSET + name@.len() + 1,
        r.d_type == dirent_type_of(*kind),
        r.name@ == name_field(name@),
{
    let mut field: Vec<u8> = Vec::new();
    let mut i: usize = 0;
    while i < DIRENT_NAME_LEN
        invariant
            i <= DIRENT_NAME_LEN,
            field@.len() == i,
            forall|j: int| 0 <= j < i ==> field@[j] == name_field(name@)[j],
        decreases DIRENT_NAME_LEN - i,
    {
        if i < name.len() {
            field.push(name[i]);
        } else {
            field.push(0u8);
        }
        i += 1;
    }
    assert(field@ =~= name_field(name@));
    DirEntry {
        ino,
        off: 0,
        reclen: (DIRENT_NAME_OFFSET + name.len() + 1) as u16,
        d_type: dirent_type(kind),
        name: field,
    }
}

/// What reading a directory stream gave.
pub enum DirRead {
    /// The end of the stream.
    End,
    /// An entry.
    Entry {
        /// Its inode number.
        ino: u64,
        /// Its type.
        kind: FileKind,
        /// Its name.
        name: Vec<u8>,
    },
    /// An error, with its number.
    Failed(i32),
}

/// `readdir64_r`: the record to store for what was read (nothing at the end
/// of the stream), or the error number to return.
pub fn readdir64_r(read: DirRead) -> (r: Result<Option<DirEntry>, i32>)
    requires
        read matches DirRead::Entry { name, .. } ==> DIRENT_NAME_OFFSET + name@.len() + 1
            <= u16::MAX,
    ensures
        match read {
            DirRead::End => r matches Ok(None),
            DirRead::Failed(e) => r == Err::<Option<DirEntry>, i32>(e),
            DirRead::Entry { ino, kind, name } => r matches Ok(Some(d)) && d.ino == ino
                && d.off == 0 && d.reclen == DIRENT_NAME_OFFSET + name@.len() + 1 && d.d_type
                == dirent_type_of(kind) && d.name@ == name_field(name@),
        },
{
    match read {
        DirRead::End => Ok(None),
        DirRead::Failed(e) => Err(e),
        DirRead::Entry { ino, kind, name } => Ok(Some(make_dirent(ino, &kind, name.as_slice()))),
    }
}

/// The advice of `posix_fadvise`.
pub enum Advice {
    /// No particular pattern.
    Normal,
    /// Sequential access.
    Sequential,
    /// Random access.
    Random,
    /// Accessed once.
    NoReuse,
    /// Needed soon.
    WillNeed,
    /// Not needed soon.
    DontNeed,
}

/// The advice that `posix_fadvise` passes on for `advice`, or nothing for a
/// code that is not one of the six (the C entry point aborts on those).
pub fn fadvise_advice(advice: i32) -> (r: Option<Advice>)
    ensures
        r == (if advice == POSIX_FADV_NORMAL {
            Some(Advice::Normal)
        } else if advice == POSIX_FADV_SEQUENTIAL {
            Some(Advice::Sequential)
        } else if advice == POSIX_FADV_RANDOM {
            Some(Advice::Random)
        } else if advice == POSIX_FADV_NOREUSE {
            Some(Advice::NoReuse)
        } else if advice == POSIX_FADV_WILLNEED {
            Some(Advice::WillNeed)
        } else if advice == POSIX_FADV_DONTNEED {
            Some(Advice::DontNeed)
        } else {
            None::<Advice>
        }),
{
    if advice == POSIX_FADV_NORMAL {
        Some(Advice::Normal)
    } else if advice == POSIX_FADV_SEQUENTIAL {
        Some(Advice::Sequential)
    } else if advice == POSIX_FADV_RANDOM {
        Some(Advice::Random)
    } else if advice == POSIX_FADV_NOREUSE {
        Some(Advice::NoReuse)
    } else if advice == POSIX_FADV_WILLNEED {
        Some(Advice::WillNeed)
    } else if advice == POSIX_FADV_DONTNEED {
        Some(Advice::DontNeed)
    } else {
        None
    }
}

/// Whether `sendfile` accepts the caller's offset for a transfer of `count`
/// bytes: no offset at all, or one that is not negative and to which `count`
/// can be added within `off_t`.
pub open spec fn sendfile_offset_ok(offset: Option<i64>, count: usize) -> bool {
    match offset {
        None => true,
        Some(o) => o >= 0 && count <= i64::MAX && o + count <= i64::MAX,
    }
}

/// The validation that `sendfile` makes before the transfer: `EINVAL` for an
/// offset that it does not accept.
pub fn sendfile_check(offset: Option<i64>, count: usize) -> (r: Result<(), i32>)
    ensures
        r == (if sendfile_offset_ok(offset, count) {
            Ok::<(), i32>(())
        } else {
            Err::<(), i32>(EINVAL)
        }),
{
    match offset {
        None => Ok(()),
        Some(o) => {
            if o < 0 {
                return Err(EINVAL);
            }
            if count as u64 > i64::MAX as u64 {
                return Err(EINVAL);
            }
            let add = count as i64;
            match add.checked_add(o) {
                Some(_) => Ok(()),
                None => Err(EINVAL),
            }
        },
    }
}

/// The validation that `copy_file_range` makes before the copy: `EBADF` when
/// either descriptor is `-1`. Other flags than none are not supported (the C
/// entry point aborts on those).
pub fn copy_file_range_check(fd_in: i32, fd_out: i32, flags: u32) -> (r: Result<(), i32>)
    requires
        fd_in == -1 || fd_out == -1 || flags == 0,
    ensures
        r == (if fd_in == -1 || fd_out == -1 {
            Err::<(), i32>(EBADF)
        } else {
            Ok::<(), i32>(())
        }),
{
    if fd_in == -1 || fd_out == -1 {
        Err(EBADF)
    } else {
        Ok(())
    }
}

/// The validation that `statx` makes before the call: `EFAULT` when the path or
/// the result buffer is missing.
pub fn statx_check(path_is_null: bool, buf_is_null: bool) -> (r: Result<(), i32>)
    ensures
        r == (if path_is_null || buf_is_null {
            Err::<(), i32>(EFAULT)
        } else {
            Ok::<(), i32>(())
        }),
{
    if path_is_null || buf_is_null {
        Err(EFAULT)
    } else {
        Ok(())
    }
}

/// The bytes that `readlink` stores into a buffer of `bufsiz` bytes: the
/// link's target cut to the buffer, with no NUL. Their count is what it
/// returns.
pub fn readlink_copy(target: &[u8], bufsiz: usize) -> (r: Vec<u8>)
    ensures
        r@ == target@.subrange(
            0,
            if target@.len() <= bufsiz {
                target@.len() as int
            } else {
                bufsiz as int
            },
        ),
{
    let n = if target.len() <= bufsiz {
        target.len()
    } else {
        bufsiz
    };
    let mut out: Vec<u8> = Vec::new();
    let mut i: usize = 0;
    while i < n
        invariant
            i <= n,
            n <= target@.len(),
            out@ =~= target@.subrange(0, i as int),
        decreases n - i,
    {
        out.push(target[i]);
        i += 1;
    }
    out
}

/// `ttyname_r` into a buffer of `buflen` bytes: the name's bytes (with no
/// NUL), or `ERANGE` when the buffer is not longer than the name.
pub fn ttyname_r(name: &[u8], buflen: usize) -> (r: Result<Vec<u8>, i32>)
    ensures
        name@.len() >= buflen ==> r == Err::<Vec<u8>, i32>(ERANGE),
        name@.len() < buflen ==> (r matches Ok(v) && v@ == name@),
{
    if name.len() >= buflen {
        return Err(ERANGE);
    }
    let copy = readlink_copy(name, name.len());
    assert(copy@ =~= name@);
    Ok(copy)
}

/// The bytes that `realpath` stores: the first `len` bytes of the resolved
/// path, then a NUL.
pub fn realpath_copy(resolved: &[u8], len: usize) -> (r: Vec<u8>)
    requires
        len <= resolved@.len(),
    ensures
        r@ == resolved@.subrange(0, len as int).push(0u8),
{
    let mut out: Vec<u8> = Vec::new();
    let mut i: usize = 0;
    while i < len
        invariant
            i <= len,
            len <= resolved@.len(),
            out@ =~= resolved@.subrange(0, i as int),
        decreases len - i,
    {
        out.push(resolved[i]);
        i += 1;
    }
    out.push(0u8);
    out
}

/// The `stat` record as the kernel gives it.
pub struct KernelStat {
    /// Device.
    pub dev: u64,
    /// Inode number.
    pub ino: u64,
    /// Number of links.
    pub nlink: u64,
    /// Type and mode.
    pub mode: u32,
    /// Owner.
    pub uid: u32,
    /// Group.
    pub gid: u32,
    /// Device of a special file.
    pub rdev: u64,
    /// Size in bytes.
    pub size: i64,
    /// Block size for I/O.
    pub blksize: i64,
    /// Number of 512-byte blocks.
    pub blocks: i64,
    /// Access time, seconds.
    pub atime: u64,
    /// Access time, nanoseconds.
    pub atime_nsec: u64,
    /// Modification time, seconds.
    pub mtime: u64,
    /// Modification time, nanoseconds.
    pub mtime_nsec: u64,
    /// Status change time, seconds.
    pub ctime: u64,
    /// Status change time, nanoseconds.
    pub ctime_nsec: u64,
}

/// The `stat` record as C callers see it.
pub struct LibcStat {
    /// Device.
    pub dev: u64,
    /// Inode number.
    pub ino: u64,
    /// Number of links.
    pub nlink: u64,
    /// Type and mode.
    pub mode: u32,
    /// Owner.
    pub uid: u32,
    /// Group.
    pub gid: u32,
    /// Device of a special file.
    pub rdev: u64,
    /// Size in bytes.
    pub size: i64,
    /// Block size for I/O.
    pub blksize: i64,
    /// Number of 512-byte blocks.
    pub blocks: i64,
    /// Access time, seconds.
    pub atime: i64,
    /// Access time, nanoseconds.
    pub atime_nsec: i64,
    /// Modification time, seconds.
    pub mtime: i64,
    /// Modification time, nanoseconds.
    pub mtime_nsec: i64,
    /// Status change time, seconds.
    pub ctime: i64,
    /// Status change time, nanoseconds.
    pub ctime_nsec: i64,
}

/// Whether every field of `s` that is converted with a check fits the C
/// record (the status change seconds are converted without one).
pub open spec fn stat_fits(s: KernelStat) -> bool {
    &&& s.atime <= i64::MAX
    &&& s.atime_nsec <= i64::MAX
    &&& s.mtime <= i64::MAX
    &&& s.mtime_nsec <= i64::MAX
    &&& s.ctime_nsec <= i64::MAX
}

/// The C `stat` record of `s`, or nothing when a field does not fit (`stat`
/// then fails with `EOVERFLOW`).
pub fn stat_to_libc(s: &KernelStat) -> (r: Option<LibcStat>)
    ensures
        r is Some <==> stat_fits(*s),
        r matches Some(l) ==> {
            &&& l.dev == s.dev && l.ino == s.ino && l.nlink == s.nlink
            &&& l.mode == s.mode && l.uid == s.uid && l.gid == s.gid
            &&& l.rdev == s.rdev && l.size == s.size && l.blksize == s.blksize
            &&& l.blocks == s.blocks
            &&& l.atime == s.atime && l.atime_nsec == s.atime_nsec
            &&& l.mtime == s.mtime && l.mtime_nsec == s.mtime_nsec
            &&& l.ctime == s.ctime as i64 && l.ctime_nsec == s.ctime_nsec
        },
{
    let max: u64 = i64::MAX as u64;
    if s.atime > max || s.atime_nsec > max || s.mtime > max || s.mtime_nsec > max
        || s.ctime_nsec > max {
        return None;
    }
    Some(
        LibcStat {
            dev: s.dev,
            ino: s.ino,
            nlink: s.nlink,
            mode: s.mode,
            uid: s.uid,
            gid: s.gid,
            rdev: s.rdev,
            size: s.size,
            blksize: s.blksize,
            blocks: s.blocks,
            atime: s.atime as i64,
            atime_nsec: s.atime_nsec as i64,
            mtime: s.mtime as i64,
            mtime_nsec: s.mtime_nsec as i64,
            ctime: s.ctime as i64,
            ctime_nsec: s.ctime_nsec as i64,
        },
    )
}

/// A named pipe is what `mkfifo` asks for, whatever permission bits come
/// with it.
pub proof fn lemma_fifo_kind(mode: u32)
    requires
        mode & S_IFMT == 0,
    ensures
        file_kind_of(mode | S_IFIFO) == FileKind::Fifo,
{
    assert((mode | 0o010000u32) & 0o170000u32 == 0o010000u32) by (bit_vector)
        requires
            mode & 0o170000u32 == 0,
    ;
}

/// The file type and the permission bits of a mode part it without loss:
/// neither overlaps the other, and together they give the mode back.
pub proof fn lemma_mode_parts(mode: u32)
    ensures
        (mode & !S_IFMT) & S_IFMT == 0,
        (mode & !S_IFMT) | (mode & S_IFMT) == mode,
{
    assert((mode & !0o170000u32) & 0o170000u32 == 0) by (bit_vector);
    assert((mode & !0o170000u32) | (mode & 0o170000u32) == mode) by (bit_vector);
}

/// For a known file type, the directory-entry code is the `S_IFMT` bits of
/// the mode shifted down by twelve.
pub proof fn lemma_dirent_type_from_mode(mode: u32)
    requires
        file_kind_of(mode) != FileKind::Unknown,
    ensures
        dirent_type_of(file_kind_of(mode)) as u32 == (mode & S_IFMT) >> 12u32,
{
    let t = mode & S_IFMT;
    assert(0o100000u32 >> 12u32 == 8u32) by (bit_vector);
    assert(0o040000u32 >> 12u32 == 4u32) by (bit_vector);
    assert(0o120000u32 >> 12u32 == 10u32) by (bit_vector);
    assert(0o010000u32 >> 12u32 == 1u32) by (bit_vector);
    assert(0o140000u32 >> 12u32 == 12u32) by (bit_vector);
    assert(0o020000u32 >> 12u32 == 2u32) by (bit_vector);
    assert(0o060000u32 >> 12u32 == 6u32) by (bit_vector);
}

} // verus!
