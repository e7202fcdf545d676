//! Requests served from end to end over an in-memory file system.

use std::io;
use std::sync::{Arc, Mutex, Weak};

use passthrough_async::abi::{
    Context, CreateIn, Handle, Inode, OpenOptions, SetattrValid, ROOT_ID, VFS_MAX_INO,
};
use passthrough_async::fs::PassthroughFs;
use passthrough_async::handlers::{FileSystem, ReadFile, WriteFile};
use passthrough_async::join::{answered, join_blocking, Joined, RelayError};
use passthrough_async::mount::{mounted, BackendFileSystem};
use passthrough_async::relay::Relay;

const SETATTR_SIZE: SetattrValid = SetattrValid { bits: 1 << 3 };

#[derive(Clone, Copy, Debug)]
struct Stat {
    st_size: i64,
}

#[derive(Debug)]
struct Entry {
    inode: Inode,
    attr: Stat,
}

struct MemFile {
    name: Vec<u8>,
    data: Vec<u8>,
}

/// Files in the root directory, with inodes that follow that of the root directory.
struct MemFs {
    files: Mutex<Vec<MemFile>>,
    handles: Mutex<Vec<Inode>>,
    no_opendir: bool,
}

fn not_found() -> io::Error {
    io::Error::from(io::ErrorKind::NotFound)
}

impl MemFs {
    fn new(no_opendir: bool) -> MemFs {
        MemFs { files: Mutex::new(Vec::new()), handles: Mutex::new(Vec::new()), no_opendir }
    }

    fn put(&self, name: &[u8], data: &[u8]) {
        let file = MemFile { name: name.to_vec(), data: data.to_vec() };
        self.files.lock().unwrap().push(file);
    }

    fn content(&self, name: &[u8]) -> Vec<u8> {
        let files = self.files.lock().unwrap();
        files.iter().find(|file| file.name == name).unwrap().data.clone()
    }

    fn with_file<T>(&self, inode: Inode, f: impl FnOnce(&mut MemFile) -> T) -> io::Result<T> {
        let mut files = self.files.lock().unwrap();
        let index = inode.checked_sub(ROOT_ID + 1).ok_or_else(not_found)?;
        files.get_mut(index as usize).map(f).ok_or_else(not_found)
    }

    fn check_handle(&self, handle: Handle, inode: Inode) -> io::Result<()> {
        match self.handles.lock().unwrap().get(handle as usize) {
            Some(open) if *open == inode => Ok(()),
            _ => Err(io::Error::from_raw_os_error(libc::EBADF)),
        }
    }

}

impl FileSystem for MemFs {
    type Entry = Entry;
    type Attr = Stat;
    type Attributes = Stat;
    type Backing = Option<u32>;
    type Error = io::Error;

    fn do_lookup(&self, parent: Inode, name: &[u8]) -> io::Result<Entry> {
        assert_eq!(parent, ROOT_ID);
        if name == b"." {
            return Ok(Entry { inode: ROOT_ID, attr: Stat { st_size: 0 } });
        }
        let files = self.files.lock().unwrap();
        let index = files.iter().position(|file| file.name == name).ok_or_else(not_found)?;
        let attr = Stat { st_size: files[index].data.len() as i64 };
        Ok(Entry { inode: ROOT_ID + 1 + index as u64, attr })
    }

    fn lookup(&self, _ctx: &Context, parent: Inode, name: &[u8]) -> io::Result<Entry> {
        self.do_lookup(parent, name)
    }

    fn getattr(&self, _ctx: &Context, inode: Inode, _handle: Option<Handle>) -> io::Result<Stat> {
        self.with_file(inode, |file| Stat { st_size: file.data.len() as i64 })
    }

    fn setattr(
        &self,
        ctx: &Context,
        inode: Inode,
        attr: Stat,
        handle: Option<Handle>,
        valid: SetattrValid,
    ) -> io::Result<Stat> {
        if valid.bits & SETATTR_SIZE.bits != 0 {
            self.with_file(inode, |file| file.data.resize(attr.st_size as usize, 0))?;
        }
        self.getattr(ctx, inode, handle)
    }

    fn open(
        &self,
        _ctx: &Context,
        inode: Inode,
        _flags: u32,
        _fuse_flags: u32,
    ) -> io::Result<(Option<Handle>, OpenOptions, Option<u32>)> {
        let mut handles = self.handles.lock().unwrap();
        handles.push(inode);
        Ok((Some(handles.len() as u64 - 1), OpenOptions { bits: 0 }, None))
    }

    fn create(
        &self,
        ctx: &Context,
        parent: Inode,
        name: &[u8],
        args: CreateIn,
    ) -> io::Result<(Entry, Option<Handle>, OpenOptions, Option<u32>)> {
        self.put(name, b"");
        let entry = self.do_lookup(parent, name)?;
        let (handle, opts, backing) = self.open(ctx, entry.inode, args.flags, args.fuse_flags)?;
        Ok((entry, handle, opts, backing))
    }

    fn fsync(&self, _ctx: &Context, inode: Inode, _data: bool, handle: Handle) -> io::Result<()> {
        self.check_handle(handle, inode)
    }

    fn fallocate(
        &self,
        _ctx: &Context,
        inode: Inode,
        handle: Handle,
        _mode: u32,
        offset: u64,
        length: u64,
    ) -> io::Result<()> {
        self.check_handle(handle, inode)?;
        self.with_file(inode, |file| {
            let end = (offset + length) as usize;
            if file.data.len() < end {
                file.data.resize(end, 0);
            }
        })
    }

    fn fsyncdir(
        &self,
        _ctx: &Context,
        inode: Inode,
        _datasync: bool,
        handle: Handle,
    ) -> io::Result<()> {
        if self.no_opendir {
            assert_eq!(inode, ROOT_ID);
            return Ok(());
        }
        self.check_handle(handle, inode)
    }
}

impl ReadFile<&mut Vec<u8>> for MemFs {
    fn read(
        &self,
        _ctx: &Context,
        inode: Inode,
        handle: Handle,
        w: &mut Vec<u8>,
        size: u32,
        offset: u64,
        _lock_owner: Option<u64>,
        _flags: u32,
    ) -> io::Result<usize> {
        self.check_handle(handle, inode)?;
        self.with_file(inode, |file| {
            let start = file.data.len().min(offset as usize);
            let end = file.data.len().min(start + size as usize);
            w.extend_from_slice(&file.data[start..end]);
            end - start
        })
    }
}

impl WriteFile<&[u8]> for MemFs {
    fn write(
        &self,
        _ctx: &Context,
        inode: Inode,
        handle: Handle,
        r: &[u8],
        size: u32,
        offset: u64,
        _lock_owner: Option<u64>,
        _delayed_write: bool,
        _flags: u32,
        _fuse_flags: u32,
    ) -> io::Result<usize> {
        self.check_handle(handle, inode)?;
        self.with_file(inode, |file| {
            let end = offset as usize + size as usize;
            if file.data.len() < end {
                file.data.resize(end, 0);
            }
            file.data[offset as usize..end].copy_from_slice(&r[..size as usize]);
            size as usize
        })
    }
}

/// Runs the relayed calls: inline, or on the blocking thread pool of a runtime.
struct Server {
    fs: PassthroughFs<Arc<MemFs>>,
    shared_ref: Weak<MemFs>,
    runtime: tokio::runtime::Runtime,
    offloaded: Mutex<usize>,
}

impl Server {
    fn start(fs: PassthroughFs<Arc<MemFs>>, shared_ref: Weak<MemFs>) -> Server {
        let runtime = tokio::runtime::Builder::new_current_thread().build().unwrap();
        Server { fs, shared_ref, runtime, offloaded: Mutex::new(0) }
    }

    fn offloaded(&self) -> usize {
        *self.offloaded.lock().unwrap()
    }

    fn serve<C, T>(
        &self,
        relay: Relay<Arc<MemFs>, C>,
        handler: impl FnOnce(&MemFs, C) -> io::Result<T> + Send + 'static,
    ) -> io::Result<T>
    where
        C: Send + 'static,
        T: Send + 'static,
    {
        let answer = match relay {
            Relay::Inline(call) => answered(handler(self.fs.backend(), call)),
            Relay::Pool(fs, call) => {
                *self.offloaded.lock().unwrap() += 1;
                let task = self.runtime.spawn_blocking(move || handler(&fs, call));
                match join_blocking(self.runtime.block_on(task)) {
                    Joined::Return(answer) => answer,
                    Joined::ResumeUnwind(payload) => panic!("handler panicked: {payload:?}"),
                }
            }
        };
        answer.map_err(|error| match error {
            RelayError::Handler(error) => error,
            RelayError::Other(error) => io::Error::other(error),
        })
    }

    fn serve_inline<C, T>(
        &self,
        relay: Relay<Arc<MemFs>, C>,
        handler: impl FnOnce(&MemFs, C) -> io::Result<T>,
    ) -> io::Result<T> {
        match relay {
            Relay::Inline(call) => handler(self.fs.backend(), call),
            Relay::Pool(_, _) => panic!("offloaded a call that borrows a buffer"),
        }
    }

    fn async_lookup(&self, ctx: &Context, parent: Inode, name: &[u8]) -> io::Result<Entry> {
        let relay = self.fs.async_lookup(self.shared_ref.upgrade(), ctx, parent, name);
        self.serve(relay, |fs, c| c.run(fs))
    }

    fn async_getattr(&self, ctx: &Context, inode: Inode, h: Option<Handle>) -> io::Result<Stat> {
        let relay = self.fs.async_getattr(self.shared_ref.upgrade(), ctx, inode, h);
        self.serve(relay, |fs, c| c.run(fs))
    }

    fn async_setattr(
        &self,
        ctx: &Context,
        inode: Inode,
        attr: Stat,
        handle: Option<Handle>,
        valid: SetattrValid,
    ) -> io::Result<Stat> {
        let shared_ref = self.shared_ref.upgrade();
        let relay = self.fs.async_setattr(shared_ref, ctx, inode, attr, handle, valid);
        self.serve(relay, |fs, c| c.run(fs))
    }

    fn async_open(
        &self,
        ctx: &Context,
        inode: Inode,
        flags: u32,
        fuse_flags: u32,
    ) -> io::Result<(Option<Handle>, OpenOptions)> {
        let relay = self.fs.async_open(self.shared_ref.upgrade(), ctx, inode, flags, fuse_flags);
        self.serve(relay, |fs, c| c.run(fs))
    }

    fn async_create(
        &self,
        ctx: &Context,
        parent: Inode,
        name: &[u8],
        args: CreateIn,
    ) -> io::Result<(Entry, Option<Handle>, OpenOptions)> {
        let relay = self.fs.async_create(self.shared_ref.upgrade(), ctx, parent, name, args);
        self.serve(relay, |fs, c| c.run(fs))
    }

    fn async_read(
        &self,
        ctx: &Context,
        inode: Inode,
        handle: Handle,
        w: &mut Vec<u8>,
        size: u32,
        offset: u64,
        lock_owner: Option<u64>,
        flags: u32,
    ) -> io::Result<usize> {
        let shared_ref = self.shared_ref.upgrade();
        let relay = self
            .fs
            .async_read(shared_ref, ctx, inode, handle, w, size, offset, lock_owner, flags);
        self.serve_inline(relay, |fs, c| c.run(fs))
    }

    fn async_write(
        &self,
        ctx: &Context,
        inode: Inode,
        handle: Handle,
        r: &[u8],
        size: u32,
        offset: u64,
        lock_owner: Option<u64>,
        delayed_write: bool,
        flags: u32,
        fuse_flags: u32,
    ) -> io::Result<usize> {
        let relay = self.fs.async_write(
            self.shared_ref.upgrade(),
            ctx,
            inode,
            handle,
            r,
            size,
            offset,
            lock_owner,
            delayed_write,
            flags,
            fuse_flags,
        );
        self.serve_inline(relay, |fs, c| c.run(fs))
    }

    fn async_fsync(&self, ctx: &Context, inode: Inode, data: bool, h: Handle) -> io::Result<()> {
        let relay = self.fs.async_fsync(self.shared_ref.upgrade(), ctx, inode, data, h);
        self.serve(relay, |fs, c| c.run(fs))
    }

    fn async_fallocate(
        &self,
        ctx: &Context,
        inode: Inode,
        handle: Handle,
        mode: u32,
        offset: u64,
        length: u64,
    ) -> io::Result<()> {
        let shared_ref = self.shared_ref.upgrade();
        let relay = self.fs.async_fallocate(shared_ref, ctx, inode, handle, mode, offset, length);
        self.serve(relay, |fs, c| c.run(fs))
    }

    fn async_fsyncdir(&self, ctx: &Context, inode: Inode, data: bool, h: Handle) -> io::Result<()> {
        let relay = self.fs.async_fsyncdir(self.shared_ref.upgrade(), ctx, inode, data, h);
        self.serve(relay, |fs, c| c.run(fs))
    }
}

fn prepare_async_fs() -> (Server, Arc<MemFs>) {
    let source = Arc::new(MemFs::new(false));
    let fs = PassthroughFs::new(Ok::<_, io::Error>(source.clone())).unwrap();
    (Server::start(fs, Weak::new()), source)
}

fn prepare_async_fs_shared(enable_pool: bool) -> (Server, Arc<MemFs>) {
    let source = Arc::new(MemFs::new(false));
    let mut fs = PassthroughFs::new_shared(Ok::<_, io::Error>(source.clone())).unwrap();
    if enable_pool {
        fs.enable_async_thread_pool(true);
    }
    (Server::start(fs, Arc::downgrade(&source)), source)
}

fn prepare_context() -> Context {
    Context { uid: 1000, gid: 1000, pid: 4242 }
}

fn create_args() -> CreateIn {
    CreateIn {
        flags: (libc::O_RDWR | libc::O_CREAT | libc::O_TRUNC) as u32,
        mode: 0o644,
        umask: 0,
        fuse_flags: 0,
    }
}

#[test]
fn test_backend_filesystem_mount() {
    let (server, source) = prepare_async_fs();

    let call = BackendFileSystem::mount(&server.fs);
    let (entry, max_ino) = mounted(call.run(&*source)).unwrap();
    assert_eq!(entry.inode, ROOT_ID);
    assert!(max_ino > 0);
    assert_eq!(max_ino, VFS_MAX_INO);
}

#[test]
fn test_async_lookup_getattr_setattr() {
    let (fs, source) = prepare_async_fs();
    let ctx = prepare_context();
    source.put(b"testfile", b"hello");

    let entry = fs.async_lookup(&ctx, ROOT_ID, b"testfile").unwrap();
    let sync_entry = source.lookup(&ctx, ROOT_ID, b"testfile").unwrap();
    assert_eq!(entry.inode, sync_entry.inode);
    assert_eq!(entry.attr.st_size, 5);

    let attr = fs.async_getattr(&ctx, entry.inode, None).unwrap();
    assert_eq!(attr.st_size, 5);

    // Truncate the file to 2 bytes through async_setattr().
    let mut new_attr = attr;
    new_attr.st_size = 2;
    let attr = fs.async_setattr(&ctx, entry.inode, new_attr, None, SETATTR_SIZE).unwrap();
    assert_eq!(attr.st_size, 2);

    assert_eq!(source.content(b"testfile").len(), 2);
    assert_eq!(fs.offloaded(), 0);
}

#[test]
fn test_async_open_read() {
    let (fs, source) = prepare_async_fs();
    let ctx = prepare_context();
    source.put(b"testfile", b"hello world");

    let entry = fs.async_lookup(&ctx, ROOT_ID, b"testfile").unwrap();
    let (handle, _opts) = fs.async_open(&ctx, entry.inode, libc::O_RDONLY as u32, 0).unwrap();
    let handle = handle.unwrap();

    // Read 5 bytes at offset 6 to also cover offset handling.
    let mut w = Vec::new();
    let flags = libc::O_RDONLY as u32;
    let n = fs.async_read(&ctx, entry.inode, handle, &mut w, 5, 6, None, flags).unwrap();
    assert_eq!(n, 5);
    assert_eq!(&w, b"world");
}

#[test]
fn test_async_create_write_fsync() {
    let (fs, source) = prepare_async_fs();
    let ctx = prepare_context();

    let (entry, handle, _opts) =
        fs.async_create(&ctx, ROOT_ID, b"newfile", create_args()).unwrap();
    let handle = handle.unwrap();

    let flags = libc::O_RDWR as u32;
    let n = fs
        .async_write(&ctx, entry.inode, handle, b"async data", 10, 0, None, false, flags, 0)
        .unwrap();
    assert_eq!(n, 10);

    fs.async_fsync(&ctx, entry.inode, true, handle).unwrap();

    assert_eq!(source.content(b"newfile"), b"async data");
}

#[test]
fn test_async_fallocate() {
    let (fs, source) = prepare_async_fs();
    let ctx = prepare_context();
    source.put(b"testfile", b"");

    let entry = fs.async_lookup(&ctx, ROOT_ID, b"testfile").unwrap();
    let (handle, _opts) = fs.async_open(&ctx, entry.inode, libc::O_RDWR as u32, 0).unwrap();
    fs.async_fallocate(&ctx, entry.inode, handle.unwrap(), 0, 0, 4096).unwrap();

    assert_eq!(source.content(b"testfile").len(), 4096);
}

// The relayed handlers run on pool threads instead of inline.
#[test]
fn test_async_pool_lookup_getattr() {
    let (fs, source) = prepare_async_fs_shared(true);
    let ctx = prepare_context();
    source.put(b"testfile", b"hello");

    let entry = fs.async_lookup(&ctx, ROOT_ID, b"testfile").unwrap();
    let sync_entry = source.lookup(&ctx, ROOT_ID, b"testfile").unwrap();
    assert_eq!(entry.inode, sync_entry.inode);
    assert_eq!(entry.attr.st_size, 5);

    let attr = fs.async_getattr(&ctx, entry.inode, None).unwrap();
    assert_eq!(attr.st_size, 5);
    assert_eq!(fs.offloaded(), 2);
}

#[test]
fn test_async_pool_create_open_fallocate() {
    let (fs, source) = prepare_async_fs_shared(true);
    let ctx = prepare_context();

    let (entry, handle, _opts) =
        fs.async_create(&ctx, ROOT_ID, b"newfile", create_args()).unwrap();
    fs.async_fsync(&ctx, entry.inode, true, handle.unwrap()).unwrap();

    let (handle, _opts) = fs.async_open(&ctx, entry.inode, libc::O_RDWR as u32, 0).unwrap();
    fs.async_fallocate(&ctx, entry.inode, handle.unwrap(), 0, 0, 4096).unwrap();

    assert_eq!(source.content(b"newfile").len(), 4096);
    assert_eq!(fs.offloaded(), 4);
}

// A shared instance with the thread pool disabled serves its requests inline.
#[test]
fn test_async_shared_pool_disabled() {
    let (fs, source) = prepare_async_fs_shared(false);
    let ctx = prepare_context();
    source.put(b"testfile", b"hello");

    let entry = fs.async_lookup(&ctx, ROOT_ID, b"testfile").unwrap();
    let attr = fs.async_getattr(&ctx, entry.inode, None).unwrap();
    assert_eq!(attr.st_size, 5);
    assert_eq!(fs.offloaded(), 0);
}

// Where directories are not opened by requests, the request must reach `fsyncdir()`: `fsync()`
// would fail to find a handle.
#[test]
fn test_async_fsyncdir_no_opendir() {
    let source = Arc::new(MemFs::new(true));
    let fs = PassthroughFs::new(Ok::<_, io::Error>(source.clone())).unwrap();
    let server = Server::start(fs, Weak::new());
    let ctx = prepare_context();

    server.async_fsyncdir(&ctx, ROOT_ID, false, 0).unwrap();
    assert!(server.async_fsync(&ctx, ROOT_ID, false, 0).is_err());
}

#[test]
fn errors_of_handlers_are_answered_on_both_routes() {
    for pool in [false, true] {
        let (fs, _source) = prepare_async_fs_shared(pool);
        let ctx = prepare_context();
        let error = fs.async_lookup(&ctx, ROOT_ID, b"missing").unwrap_err();
        assert_eq!(error.kind(), io::ErrorKind::NotFound);
        let error = fs.async_fsync(&ctx, ROOT_ID + 1, true, 7).unwrap_err();
        assert_eq!(error.raw_os_error(), Some(libc::EBADF));
    }
}

#[test]
fn reads_and_writes_are_inline_with_the_pool_enabled() {
    let (fs, source) = prepare_async_fs_shared(true);
    let ctx = prepare_context();
    let (entry, handle, _opts) =
        fs.async_create(&ctx, ROOT_ID, b"newfile", create_args()).unwrap();
    let handle = handle.unwrap();
    assert_eq!(fs.offloaded(), 1);

    let flags = libc::O_RDWR as u32;
    let n = fs
        .async_write(&ctx, entry.inode, handle, b"data", 4, 2, None, false, flags, 0)
        .unwrap();
    assert_eq!(n, 4);
    let mut w = Vec::new();
    let n = fs.async_read(&ctx, entry.inode, handle, &mut w, 16, 3, None, flags).unwrap();
    assert_eq!(n, 3);
    assert_eq!(&w, b"ata");
    assert_eq!(source.content(b"newfile"), b"\0\0data");
    assert_eq!(fs.offloaded(), 1);
}

#[test]
fn requests_are_inline_once_the_instance_is_gone() {
    let (fs, source) = prepare_async_fs_shared(true);
    source.put(b"testfile", b"hello");
    let server = Server { shared_ref: Weak::new(), ..fs };
    let entry = server.async_lookup(&prepare_context(), ROOT_ID, b"testfile").unwrap();
    assert_eq!(entry.attr.st_size, 5);
    assert_eq!(server.offloaded(), 0);
}
