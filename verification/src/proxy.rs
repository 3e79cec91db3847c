//! The proxy facade and the lifecycle of the resources it manages.
//!
//! A [`GFXFileManager`] stands for one session with the native component.
//! The native dispatch itself — an unsafe call through the vtable of a
//! binary-only object — cannot stand in verified code, so every operation
//! here is the verified half of one dispatch: it takes the raw value the
//! native slot returned, records the call in an ordered log, keeps the
//! lifecycle state and the registry of outstanding handles, and translates
//! the raw reply into the typed result.  The caller that performs the real
//! dispatch hands the reply in; the contracts hold for every value the
//! native side may return.
//!
//! The lifecycle is a three-state machine: a proxy is constructed closed,
//! opens through a successful container creation or opening, and closes for
//! good through an explicit close or through [`GFXFileManager::teardown`].
//! File and search handles are issued by the proxy and closed exactly once:
//! closing consumes the handle, so no handle can be used after its release,
//! and teardown releases every handle still outstanding before it closes
//! the container and releases the foreign object.

use vstd::prelude::*;

verus! {

use vstd::utf8::decode_utf8;
use vstd::utf8::valid_utf8;

use crate::calls::Call;
use crate::codec::Access;
use crate::codec::Mode;
use crate::codec::MoveMethod;
use crate::marshal::DecodeFailure;
use crate::marshal::NATIVE_TEXT_BUFFER_LEN;
use crate::marshal::decode_text;
use crate::marshal::no_nul_char;
use crate::marshal::nul_prefix;
use crate::marshal::reported_prefix;
use crate::marshal::truncate_at_nul;
use crate::marshal::truncate_reported;

/// ABI version tag the native factory is called with by default.
pub const OBJECT_VERSION: i32 = 0x1007;

/// Where a proxy stands in the container lifecycle.  `Closed` is terminal:
/// the native contract offers no way back to `Open` for the same instance.
#[derive(Clone, Copy, PartialEq, Eq, Structural, Debug)]
pub enum LifecycleState {
    ConstructedClosed,
    Open,
    Closed,
}

/// The abstract state of a proxy: its construction mode, where it stands in
/// the container lifecycle, the native handles currently checked out, and
/// the ordered log of every native call issued so far.
#[verifier::ext_equal]
pub struct ProxyModel {
    pub mode: Mode,
    pub state: LifecycleState,
    pub files: Seq<i32>,
    pub searches: Seq<i32>,
    pub log: Seq<Call>,
}

impl ProxyModel {
    /// The container is currently open.
    pub open spec fn is_open(self) -> bool {
        self.state == LifecycleState::Open
    }

    /// The same state with one more call recorded.
    pub open spec fn logged(self, c: Call) -> ProxyModel {
        ProxyModel { log: self.log.push(c), ..self }
    }

    /// The same state in another lifecycle phase.
    pub open spec fn with_state(self, st: LifecycleState) -> ProxyModel {
        ProxyModel { state: st, ..self }
    }

    /// The same state with one more file handle checked out.
    pub open spec fn with_file(self, handle: i32) -> ProxyModel {
        ProxyModel { files: self.files.push(handle), ..self }
    }

    /// The same state with one more search handle checked out.
    pub open spec fn with_search(self, handle: i32) -> ProxyModel {
        ProxyModel { searches: self.searches.push(handle), ..self }
    }
}

/// The state of a proxy right after construction: no container open, no
/// handle outstanding, and exactly the factory call on record.
pub open spec fn fresh_model(mode: Mode, version: i32) -> ProxyModel {
    ProxyModel {
        mode,
        state: LifecycleState::ConstructedClosed,
        files: Seq::empty(),
        searches: Seq::empty(),
        log: seq![Call::CreateObject { mode: mode.code_spec(), version }],
    }
}

/// Effect of a container creation: the call is recorded, and a nonzero
/// reply opens the container.
pub open spec fn create_container_step(m: ProxyModel, reply: i32) -> ProxyModel {
    m.logged(Call::CreateContainer).with_state(
        if reply != 0 {
            LifecycleState::Open
        } else {
            m.state
        },
    )
}

/// Effect of opening an existing container: as for creation.
pub open spec fn open_container_step(m: ProxyModel, mode: i32, reply: i32) -> ProxyModel {
    m.logged(Call::OpenContainer { mode }).with_state(
        if reply != 0 {
            LifecycleState::Open
        } else {
            m.state
        },
    )
}

/// Effect of a close: only an open container delegates to the native close
/// and moves to the terminal state; on any other state nothing happens, so
/// a second close never reaches the native component.
pub open spec fn close_container_step(m: ProxyModel) -> ProxyModel {
    if m.is_open() {
        m.logged(Call::CloseContainer).with_state(LifecycleState::Closed)
    } else {
        m
    }
}

/// What a close reports: the native reply where the close was delegated,
/// and failure where the container was not open to begin with.
pub open spec fn close_container_result(m: ProxyModel, reply: i32) -> bool {
    m.is_open() && reply != 0
}

/// The sequence `s` with the first occurrence of `x` taken out, or `s`
/// itself when `x` does not occur.
pub open spec fn remove_first(s: Seq<i32>, x: i32) -> Seq<i32>
    decreases s.len(),
{
    if s.len() == 0 {
        s
    } else if s[0] == x {
        s.drop_first()
    } else {
        seq![s[0]] + remove_first(s.drop_first(), x)
    }
}

/// One release call per outstanding search handle, in registry order.
pub open spec fn close_search_calls(searches: Seq<i32>) -> Seq<Call> {
    searches.map_values(|h: i32| Call::CloseSearchResult { handle: h })
}

/// The calls a teardown issues, in order: every outstanding search handle
/// is released, then all file handles at once, then the container if it is
/// still open, and the foreign object last.
pub open spec fn teardown_calls(m: ProxyModel) -> Seq<Call> {
    close_search_calls(m.searches) + seq![Call::CloseAllFiles] + (if m.is_open() {
        seq![Call::CloseContainer]
    } else {
        Seq::empty()
    }) + seq![Call::ReleaseObject]
}

/// One open entry inside the container.  A handle is issued by the proxy
/// and consumed by the close that releases it, so a released handle cannot
/// be used again.
#[derive(Debug)]
pub struct FileHandle {
    handle: i32,
}

impl FileHandle {
    /// The native handle value this file stands for.
    pub closed spec fn id(self) -> i32 {
        self.handle
    }

    /// The native handle value this file stands for.
    pub fn handle(&self) -> (r: i32)
        ensures
            r == self.id(),
    {
        self.handle
    }
}

/// An active directory-enumeration cursor, owned like a file handle.
#[derive(Debug)]
pub struct SearchHandle {
    handle: i32,
}

impl SearchHandle {
    /// The native handle value this cursor stands for.
    pub closed spec fn id(self) -> i32 {
        self.handle
    }

    /// The native handle value this cursor stands for.
    pub fn handle(&self) -> (r: i32)
        ensures
            r == self.id(),
    {
        self.handle
    }
}

/// A directory-entry record as the native enumeration filled it.  Its
/// layout is native-defined, so it is carried opaquely.
#[derive(Clone, PartialEq, Eq, Debug)]
pub struct ResultEntry {
    pub bytes: Vec<u8>,
}

/// The auxiliary archive-format manager some open and create operations
/// take.  Its layout is native-defined, so it is carried opaquely.
#[derive(Clone, PartialEq, Eq, Debug)]
pub struct CjArchiveFm {
    pub bytes: Vec<u8>,
}

/// A dialog payload handed through to the native dialog call, carried
/// opaquely.
#[derive(Clone, PartialEq, Eq, Debug)]
pub struct DialogData {
    pub bytes: Vec<u8>,
}

/// A pair of integers whose native meaning is undocumented.
#[derive(Clone, Copy, PartialEq, Eq, Structural, Debug)]
pub struct UnknownPair(pub i32, pub i32);

/// A native file time, as the two halves the native call reads and writes.
#[derive(Clone, Copy, PartialEq, Eq, Structural, Debug)]
pub struct FileTime {
    pub low: u32,
    pub high: u32,
}

/// What a native read or write reported: its status and the number of
/// bytes actually transferred, which may be less than was requested.
#[derive(Clone, Copy, PartialEq, Eq, Structural, Debug)]
pub struct TransferReply {
    pub status: i32,
    pub transferred: u32,
}

/// What a native text query left behind: the fixed buffer as it was
/// written, and the byte count the call reported.
#[derive(Clone, PartialEq, Eq, Debug)]
pub struct TextReply {
    pub buffer: Vec<u8>,
    pub reported_len: i32,
}

/// What a find-first returned: the cursor handle and the first entry.
#[derive(Clone, PartialEq, Eq, Debug)]
pub struct FindFirstReply {
    pub search: i32,
    pub entry: ResultEntry,
}

/// What a find-next returned: its status and the next entry.
#[derive(Clone, PartialEq, Eq, Debug)]
pub struct FindNextReply {
    pub status: i32,
    pub entry: ResultEntry,
}

/// What a file-time query returned.
#[derive(Clone, Copy, PartialEq, Eq, Structural, Debug)]
pub struct FileTimeReply {
    pub ok: bool,
    pub creation: FileTime,
    pub last_write: FileTime,
}

/// One session with the native archive-management component.
pub struct GFXFileManager {
    mode: Mode,
    state: LifecycleState,
    files: Vec<i32>,
    searches: Vec<i32>,
    log: Vec<Call>,
}

impl View for GFXFileManager {
    type V = ProxyModel;

    closed spec fn view(&self) -> ProxyModel {
        ProxyModel {
            mode: self.mode,
            state: self.state,
            files: self.files@,
            searches: self.searches@,
            log: self.log@,
        }
    }
}

impl GFXFileManager {
    /// Constructs a proxy with the default ABI version tag.
    pub fn new(mode: Mode) -> (r: GFXFileManager)
        ensures
            r@ == fresh_model(mode, OBJECT_VERSION),
    {
        Self::new_with_version(mode, OBJECT_VERSION)
    }

    /// Constructs a proxy around a foreign object made with the given mode
    /// and ABI version tag.
    pub fn new_with_version(mode: Mode, version: i32) -> (r: GFXFileManager)
        ensures
            r@ == fresh_model(mode, version),
    {
        let mut log: Vec<Call> = Vec::new();
        log.push(Call::CreateObject { mode: mode.code(), version });
        let r = GFXFileManager {
            mode,
            state: LifecycleState::ConstructedClosed,
            files: Vec::new(),
            searches: Vec::new(),
            log,
        };
        proof {
            assert(r@ =~= fresh_model(mode, version));
        }
        r
    }

    /// Decodes the container mode the native component reported; a code
    /// that decodes to no variant means the ABIs have diverged, which the
    /// caller treats as fatal.
    pub fn mode(&mut self, reply: i32) -> (r: Option<Mode>)
        ensures
            final(self)@ == old(self)@.logged(Call::Mode),
            r == Mode::from_code_spec(reply),
    {
        self.log.push(Call::Mode);
        Mode::from_code(reply)
    }

    /// Sets a configuration value; the status is native-defined.
    pub fn config_set(&mut self, i1: i32, i2: i32, reply: i32) -> (r: i32)
        ensures
            final(self)@ == old(self)@.logged(Call::ConfigSet { i1, i2 }),
            r == reply,
    {
        self.log.push(Call::ConfigSet { i1, i2 });
        reply
    }

    /// Reads a configuration value; the native entry point behind this slot
    /// is unverified and reputed to crash, so nothing more is claimed.
    pub fn config_get(&mut self, i1: i32, i2: i32, reply: i32) -> (r: i32)
        ensures
            final(self)@ == old(self)@.logged(Call::ConfigGet { i1, i2 }),
            r == reply,
    {
        self.log.push(Call::ConfigGet { i1, i2 });
        reply
    }

    /// Creates a new container and opens it.  A nonzero reply is success;
    /// failure carries no further native detail.
    pub fn create_container(&mut self, filename: &str, password: &str, reply: i32) -> (r: bool)
        requires
            no_nul_char(filename@),
            no_nul_char(password@),
            old(self)@.state == LifecycleState::ConstructedClosed,
        ensures
            final(self)@ == create_container_step(old(self)@, reply),
            r == (reply != 0),
    {
        self.log.push(Call::CreateContainer);
        if reply != 0 {
            self.state = LifecycleState::Open;
        }
        reply != 0
    }

    /// Opens an existing container.  A nonzero reply is success; failure —
    /// wrong password, missing path, version mismatch — carries no further
    /// native detail.
    pub fn open_container(&mut self, filename: &str, password: &str, mode: i32, reply: i32) -> (r:
        bool)
        requires
            no_nul_char(filename@),
            no_nul_char(password@),
            old(self)@.state == LifecycleState::ConstructedClosed,
        ensures
            final(self)@ == open_container_step(old(self)@, mode, reply),
            r == (reply != 0),
    {
        self.log.push(Call::OpenContainer { mode });
        if reply != 0 {
            self.state = LifecycleState::Open;
        }
        reply != 0
    }

    /// Closes the container.  The open state is checked first, so closing
    /// an already-closed proxy delegates nothing and reports failure.
    pub fn close_container(&mut self, reply: i32) -> (r: bool)
        ensures
            final(self)@ == close_container_step(old(self)@),
            r == close_container_result(old(self)@, reply),
    {
        if self.state == LifecycleState::Open {
            self.log.push(Call::CloseContainer);
            self.state = LifecycleState::Closed;
            reply != 0
        } else {
            false
        }
    }

    /// Whether a container is currently open.
    pub fn is_open(&self) -> (r: bool)
        ensures
            r == self@.is_open(),
    {
        self.state == LifecycleState::Open
    }

    /// Where this proxy stands in the container lifecycle.
    pub fn lifecycle_state(&self) -> (r: LifecycleState)
        ensures
            r == self@.state,
    {
        self.state
    }

    /// The module handle the native component reported.
    pub fn main_module_handle(&mut self, reply: usize) -> (r: usize)
        ensures
            final(self)@ == old(self)@.logged(Call::MainModuleHandle),
            r == reply,
    {
        self.log.push(Call::MainModuleHandle);
        reply
    }

    /// An undocumented native operation; the status is native-defined.
    pub fn function_9(&mut self, i1: i32, reply: i32) -> (r: i32)
        ensures
            final(self)@ == old(self)@.logged(Call::Function9 { i1 }),
            r == reply,
    {
        self.log.push(Call::Function9 { i1 });
        reply
    }

    /// Opens a file inside the container; the returned handle is checked
    /// out until it is closed or the proxy is torn down.
    pub fn open_file(&mut self, filename: &str, access: Access, unknown: i32, reply: i32) -> (r:
        FileHandle)
        requires
            no_nul_char(filename@),
        ensures
            final(self)@ == old(self)@.logged(
                Call::OpenFile { access: access.bits_spec(), unknown },
            ).with_file(reply),
            r.id() == reply,
    {
        self.log.push(Call::OpenFile { access: access.bits(), unknown });
        self.files.push(reply);
        FileHandle { handle: reply }
    }

    /// Opens a file through the auxiliary archive-format manager.
    pub fn open_file_cj(
        &mut self,
        fm: &mut CjArchiveFm,
        filename: &str,
        access: Access,
        unknown: i32,
        reply: i32,
    ) -> (r: FileHandle)
        requires
            no_nul_char(filename@),
        ensures
            final(self)@ == old(self)@.logged(
                Call::OpenFileCj { access: access.bits_spec(), unknown },
            ).with_file(reply),
            r.id() == reply,
            *final(fm) == *old(fm),
    {
        self.log.push(Call::OpenFileCj { access: access.bits(), unknown });
        self.files.push(reply);
        FileHandle { handle: reply }
    }

    /// An undocumented native operation; the status is native-defined.
    pub fn function_12(&mut self, reply: i32) -> (r: i32)
        ensures
            final(self)@ == old(self)@.logged(Call::Function12),
            r == reply,
    {
        self.log.push(Call::Function12);
        reply
    }

    /// An undocumented native operation; the status is native-defined.
    pub fn function_13(&mut self, reply: i32) -> (r: i32)
        ensures
            final(self)@ == old(self)@.logged(Call::Function13),
            r == reply,
    {
        self.log.push(Call::Function13);
        reply
    }

    /// Creates a file inside the container; the returned handle is checked
    /// out until it is closed or the proxy is torn down.
    pub fn create_file(&mut self, filename: &str, unknown: i32, reply: i32) -> (r: FileHandle)
        requires
            no_nul_char(filename@),
        ensures
            final(self)@ == old(self)@.logged(Call::CreateFile { unknown }).with_file(reply),
            r.id() == reply,
    {
        self.log.push(Call::CreateFile { unknown });
        self.files.push(reply);
        FileHandle { handle: reply }
    }

    /// Creates a file through the auxiliary archive-format manager.
    pub fn create_file_cj(
        &mut self,
        fm: &mut CjArchiveFm,
        filename: &str,
        unknown: i32,
        reply: i32,
    ) -> (r: FileHandle)
        requires
            no_nul_char(filename@),
        ensures
            final(self)@ == old(self)@.logged(Call::CreateFileCj { unknown }).with_file(reply),
            r.id() == reply,
            *final(fm) == *old(fm),
    {
        self.log.push(Call::CreateFileCj { unknown });
        self.files.push(reply);
        FileHandle { handle: reply }
    }

    /// Deletes a file by name; the status is native-defined.
    pub fn delete_file(&mut self, filename: &str, reply: i32) -> (r: i32)
        requires
            no_nul_char(filename@),
        ensures
            final(self)@ == old(self)@.logged(Call::DeleteFile),
            r == reply,
    {
        self.log.push(Call::DeleteFile);
        reply
    }

    /// Closes a file handle.  The handle is consumed, so it can be closed
    /// only once and never used afterwards, and it leaves the registry of
    /// outstanding handles.
    pub fn close_file(&mut self, file: FileHandle, reply: i32) -> (r: i32)
        ensures
            final(self)@ == (ProxyModel {
                files: remove_first(old(self)@.files, file.id()),
                log: old(self)@.log.push(Call::CloseFile { handle: file.id() }),
                ..old(self)@
            }),
            r == reply,
    {
        self.log.push(Call::CloseFile { handle: file.handle });
        remove_handle(&mut self.files, file.handle);
        reply
    }

    /// Reads from a file.  The reported transfer count is handed back
    /// unmodified: a count below the request is a partial read, not an
    /// error.
    pub fn read(&mut self, file: &FileHandle, bytes_to_read: i32, reply: TransferReply) -> (r:
        TransferReply)
        ensures
            final(self)@ == old(self)@.logged(
                Call::Read { handle: file.id(), bytes_to_read },
            ),
            r == reply,
            r.transferred == reply.transferred,
    {
        self.log.push(Call::Read { handle: file.handle, bytes_to_read });
        reply
    }

    /// Writes to a file.  The reported transfer count is handed back
    /// unmodified: a count below the request is a partial write, not an
    /// error.
    pub fn write(&mut self, file: &FileHandle, bytes_to_write: i32, reply: TransferReply) -> (r:
        TransferReply)
        ensures
            final(self)@ == old(self)@.logged(
                Call::Write { handle: file.id(), bytes_to_write },
            ),
            r == reply,
            r.transferred == reply.transferred,
    {
        self.log.push(Call::Write { handle: file.handle, bytes_to_write });
        reply
    }

    /// The command-line path bytes the native component handed out.
    pub fn cmd_line_path(&mut self, reply: Vec<u8>) -> (r: Vec<u8>)
        ensures
            final(self)@ == old(self)@.logged(Call::CmdLinePath),
            r@ == reply@,
    {
        self.log.push(Call::CmdLinePath);
        reply
    }

    /// The command-line executable bytes the native component handed out.
    pub fn cmd_line_exe(&mut self, reply: Vec<u8>) -> (r: Vec<u8>)
        ensures
            final(self)@ == old(self)@.logged(Call::CmdLineExe),
            r@ == reply@,
    {
        self.log.push(Call::CmdLineExe);
        reply
    }

    /// An undocumented native query, handed back as the native call filled
    /// it.
    pub fn get_unknown(&mut self, reply: UnknownPair) -> (r: UnknownPair)
        ensures
            final(self)@ == old(self)@.logged(Call::GetUnknown),
            r == reply,
    {
        self.log.push(Call::GetUnknown);
        reply
    }

    /// An undocumented native setter; the status is native-defined.
    pub fn set_unknown(&mut self, a: i32, b: i32, reply: i32) -> (r: i32)
        ensures
            final(self)@ == old(self)@.logged(Call::SetUnknown { a, b }),
            r == reply,
    {
        self.log.push(Call::SetUnknown { a, b });
        reply
    }

    /// Creates a directory in the container; a nonzero reply is success.
    pub fn create_directory(&mut self, name: &str, reply: i32) -> (r: bool)
        requires
            no_nul_char(name@),
        ensures
            final(self)@ == old(self)@.logged(Call::CreateDir),
            r == (reply != 0),
    {
        self.log.push(Call::CreateDir);
        reply != 0
    }

    /// Deletes a directory in the container; a nonzero reply is success.
    pub fn delete_directory(&mut self, name: &str, reply: i32) -> (r: bool)
        requires
            no_nul_char(name@),
        ensures
            final(self)@ == old(self)@.logged(Call::DeleteDir),
            r == (reply != 0),
    {
        self.log.push(Call::DeleteDir);
        reply != 0
    }

    /// Resets the working directory; a nonzero reply is success.
    pub fn reset_directory(&mut self, reply: i32) -> (r: bool)
        ensures
            final(self)@ == old(self)@.logged(Call::ResetDir),
            r == (reply != 0),
    {
        self.log.push(Call::ResetDir);
        reply != 0
    }

    /// Changes the working directory; a nonzero reply is success.
    pub fn change_directory(&mut self, name: &str, reply: i32) -> (r: bool)
        requires
            no_nul_char(name@),
        ensures
            final(self)@ == old(self)@.logged(Call::ChangeDir),
            r == (reply != 0),
    {
        self.log.push(Call::ChangeDir);
        reply != 0
    }

    /// The current directory's name: the prefix of the fixed buffer that
    /// the native call reported, decoded as UTF-8, or the raw payload on a
    /// decode failure.
    pub fn get_directory_name(&mut self, reply: TextReply) -> (r: Result<String, DecodeFailure>)
        requires
            reply.buffer@.len() == NATIVE_TEXT_BUFFER_LEN as int,
        ensures
            final(self)@ == old(self)@.logged(Call::GetDirName),
            valid_utf8(reported_prefix(reply.buffer@, reply.reported_len as int)) ==> (r matches Ok(
                s,
            ) && s@ == decode_utf8(reported_prefix(reply.buffer@, reply.reported_len as int))),
            !valid_utf8(reported_prefix(reply.buffer@, reply.reported_len as int)) ==> (r matches Err(
                e,
            ) && e.bytes@ == reported_prefix(reply.buffer@, reply.reported_len as int)),
    {
        self.log.push(Call::GetDirName);
        decode_text(truncate_reported(reply.buffer, reply.reported_len))
    }

    /// Sets the virtual path; a nonzero reply is success.
    pub fn set_virtual_path(&mut self, path: &str, reply: i32) -> (r: bool)
        requires
            no_nul_char(path@),
        ensures
            final(self)@ == old(self)@.logged(Call::SetVirtualPath),
            r == (reply != 0),
    {
        self.log.push(Call::SetVirtualPath);
        reply != 0
    }

    /// The virtual path: the fixed buffer up to its first null byte,
    /// decoded as UTF-8, or the raw payload on a decode failure.
    pub fn get_virtual_path(&mut self, reply: Vec<u8>) -> (r: Result<String, DecodeFailure>)
        requires
            reply@.len() == NATIVE_TEXT_BUFFER_LEN as int,
        ensures
            final(self)@ == old(self)@.logged(Call::GetVirtualPath),
            valid_utf8(nul_prefix(reply@)) ==> (r matches Ok(s) && s@ == decode_utf8(
                nul_prefix(reply@),
            )),
            !valid_utf8(nul_prefix(reply@)) ==> (r matches Err(e) && e.bytes@ == nul_prefix(
                reply@,
            )),
    {
        self.log.push(Call::GetVirtualPath);
        decode_text(truncate_at_nul(reply))
    }

    /// Begins a directory enumeration: the returned cursor is checked out
    /// until it is closed or the proxy is torn down, and the first entry is
    /// handed back as the native call filled it.
    pub fn find_first_file(&mut self, pattern: &str, reply: FindFirstReply) -> (r: (
        SearchHandle,
        ResultEntry,
    ))
        requires
            no_nul_char(pattern@),
        ensures
            final(self)@ == old(self)@.logged(Call::FindFirstFile).with_search(reply.search),
            r.0.id() == reply.search,
            r.1 == reply.entry,
    {
        self.log.push(Call::FindFirstFile);
        self.searches.push(reply.search);
        (SearchHandle { handle: reply.search }, reply.entry)
    }

    /// Advances a directory enumeration.  The native status is handed back
    /// unmodified; its sentinel value marks an exhausted enumeration.
    pub fn find_next_file(&mut self, search: &SearchHandle, reply: FindNextReply) -> (r: (
        i32,
        ResultEntry,
    ))
        ensures
            final(self)@ == old(self)@.logged(Call::FindNextFile { handle: search.id() }),
            r.0 == reply.status,
            r.1 == reply.entry,
    {
        self.log.push(Call::FindNextFile { handle: search.handle });
        (reply.status, reply.entry)
    }

    /// Closes a search cursor.  The handle is consumed, so a cursor is
    /// released exactly once and never used afterwards.
    pub fn find_close(&mut self, search: SearchHandle, reply: i32) -> (r: i32)
        ensures
            final(self)@ == (ProxyModel {
                searches: remove_first(old(self)@.searches, search.id()),
                log: old(self)@.log.push(Call::CloseSearchResult { handle: search.id() }),
                ..old(self)@
            }),
            r == reply,
    {
        self.log.push(Call::CloseSearchResult { handle: search.handle });
        remove_handle(&mut self.searches, search.handle);
        reply
    }

    /// The name of an open file: the fixed buffer up to its first null
    /// byte, decoded as UTF-8, or the raw payload on a decode failure.
    pub fn file_name_from_handle(&mut self, file: &FileHandle, count: usize, reply: Vec<u8>) -> (r:
        Result<String, DecodeFailure>)
        requires
            reply@.len() == NATIVE_TEXT_BUFFER_LEN as int,
        ensures
            final(self)@ == old(self)@.logged(
                Call::FileNameFromHandle { handle: file.id(), count },
            ),
            valid_utf8(nul_prefix(reply@)) ==> (r matches Ok(s) && s@ == decode_utf8(
                nul_prefix(reply@),
            )),
            !valid_utf8(nul_prefix(reply@)) ==> (r matches Err(e) && e.bytes@ == nul_prefix(
                reply@,
            )),
    {
        self.log.push(Call::FileNameFromHandle { handle: file.handle, count });
        decode_text(truncate_at_nul(reply))
    }

    /// The size the native component reported for an open file.
    pub fn get_file_size(&mut self, file: &FileHandle, reply: i32) -> (r: i32)
        ensures
            final(self)@ == old(self)@.logged(Call::GetFileSize { handle: file.id() }),
            r == reply,
    {
        self.log.push(Call::GetFileSize { handle: file.handle });
        reply
    }

    /// The file times the native component reported, handed back as the
    /// call filled them together with its success flag.
    pub fn get_file_time(&mut self, file: &FileHandle, reply: FileTimeReply) -> (r: FileTimeReply)
        ensures
            final(self)@ == old(self)@.logged(Call::GetFileTime { handle: file.id() }),
            r == reply,
    {
        self.log.push(Call::GetFileTime { handle: file.handle });
        reply
    }

    /// Sets the file times; the reply is the native success flag.
    pub fn set_file_time(
        &mut self,
        file: &FileHandle,
        creation_time: FileTime,
        last_write_time: FileTime,
        reply: bool,
    ) -> (r: bool)
        ensures
            final(self)@ == old(self)@.logged(Call::SetFileTime { handle: file.id() }),
            r == reply,
    {
        self.log.push(Call::SetFileTime { handle: file.handle });
        reply
    }

    /// Moves the file position.  The reply — the new position, or the
    /// native failure sentinel — is handed back unmodified.
    pub fn seek(
        &mut self,
        file: &FileHandle,
        distance_to_move: i32,
        move_method: MoveMethod,
        reply: i32,
    ) -> (r: i32)
        ensures
            final(self)@ == old(self)@.logged(
                Call::Seek {
                    handle: file.id(),
                    distance: distance_to_move,
                    method: move_method.code_spec(),
                },
            ),
            r == reply,
    {
        self.log.push(
            Call::Seek {
                handle: file.handle,
                distance: distance_to_move,
                method: move_method.code(),
            },
        );
        reply
    }

    /// The window handle the native component reported.
    pub fn get_hwnd(&mut self, reply: usize) -> (r: usize)
        ensures
            final(self)@ == old(self)@.logged(Call::GetHwnd),
            r == reply,
    {
        self.log.push(Call::GetHwnd);
        reply
    }

    /// Sets the host window handle; the status is native-defined.
    pub fn set_hwnd(&mut self, hwnd: usize, reply: i32) -> (r: i32)
        ensures
            final(self)@ == old(self)@.logged(Call::SetHwnd { hwnd }),
            r == reply,
    {
        self.log.push(Call::SetHwnd { hwnd });
        reply
    }

    /// Records an error-handler registration.  The handler itself is a
    /// function pointer in the native calling convention, passed through by
    /// the unverified dispatch layer and never retained here.
    pub fn register_error_handler(&mut self, reply: i32) -> (r: i32)
        ensures
            final(self)@ == old(self)@.logged(Call::RegisterErrorHandler),
            r == reply,
    {
        self.log.push(Call::RegisterErrorHandler);
        reply
    }

    /// Imports a directory; zero is success, any other status is a
    /// native-defined failure code.
    pub fn import_directory(
        &mut self,
        srcdir: &str,
        dstdir: &str,
        dir_name: &str,
        create_target_dir: bool,
        reply: i32,
    ) -> (r: i32)
        requires
            no_nul_char(srcdir@),
            no_nul_char(dstdir@),
            no_nul_char(dir_name@),
        ensures
            final(self)@ == old(self)@.logged(Call::ImportDir { create_target_dir }),
            r == reply,
    {
        self.log.push(Call::ImportDir { create_target_dir });
        reply
    }

    /// Imports a file; zero is success, any other status is a
    /// native-defined failure code.
    pub fn import_file(
        &mut self,
        srcdir: &str,
        dstdir: &str,
        filename: &str,
        create_target_dir: bool,
        reply: i32,
    ) -> (r: i32)
        requires
            no_nul_char(srcdir@),
            no_nul_char(dstdir@),
            no_nul_char(filename@),
        ensures
            final(self)@ == old(self)@.logged(Call::ImportFile { create_target_dir }),
            r == reply,
    {
        self.log.push(Call::ImportFile { create_target_dir });
        reply
    }

    /// Exports a directory; zero is success, any other status is a
    /// native-defined failure code.
    pub fn export_directory(
        &mut self,
        srcdir: &str,
        dstdir: &str,
        dir_name: &str,
        create_target_dir: bool,
        reply: i32,
    ) -> (r: i32)
        requires
            no_nul_char(srcdir@),
            no_nul_char(dstdir@),
            no_nul_char(dir_name@),
        ensures
            final(self)@ == old(self)@.logged(Call::ExportDir { create_target_dir }),
            r == reply,
    {
        self.log.push(Call::ExportDir { create_target_dir });
        reply
    }

    /// Exports a file; zero is success, any other status is a
    /// native-defined failure code.
    pub fn export_file(
        &mut self,
        srcdir: &str,
        dstdir: &str,
        filename: &str,
        create_target_dir: bool,
        reply: i32,
    ) -> (r: i32)
        requires
            no_nul_char(srcdir@),
            no_nul_char(dstdir@),
            no_nul_char(filename@),
        ensures
            final(self)@ == old(self)@.logged(Call::ExportFile { create_target_dir }),
            r == reply,
    {
        self.log.push(Call::ExportFile { create_target_dir });
        reply
    }

    /// Asks whether a file exists; the status is native-defined.
    pub fn file_exists(&mut self, name: &str, flags: i32, reply: i32) -> (r: i32)
        requires
            no_nul_char(name@),
        ensures
            final(self)@ == old(self)@.logged(Call::FileExists { flags }),
            r == reply,
    {
        self.log.push(Call::FileExists { flags });
        reply
    }

    /// Shows a native dialog over the given payload; the status is
    /// native-defined.
    pub fn show_dialog(&mut self, data: &mut DialogData, reply: i32) -> (r: i32)
        ensures
            final(self)@ == old(self)@.logged(Call::ShowDialog),
            *final(data) == *old(data),
            r == reply,
    {
        self.log.push(Call::ShowDialog);
        reply
    }

    /// Records an entry-enumeration request over the given filter.  The
    /// per-entry callback is a function pointer in the native calling
    /// convention, passed through by the unverified dispatch layer and
    /// never retained here.
    pub fn for_each_entry_in_container(&mut self, filter: &str, reply: i32) -> (r: i32)
        requires
            no_nul_char(filter@),
        ensures
            final(self)@ == old(self)@.logged(Call::ForEachEntryInContainer),
            r == reply,
    {
        self.log.push(Call::ForEachEntryInContainer);
        reply
    }

    /// Refreshes the current directory; the status is native-defined.
    pub fn update_current_directory(&mut self, reply: i32) -> (r: i32)
        ensures
            final(self)@ == old(self)@.logged(Call::UpdateCurrentDir),
            r == reply,
    {
        self.log.push(Call::UpdateCurrentDir);
        reply
    }

    /// An undocumented native operation; the status is native-defined.
    pub fn function_50(&mut self, i1: i32, reply: i32) -> (r: i32)
        ensures
            final(self)@ == old(self)@.logged(Call::Function50 { i1 }),
            r == reply,
    {
        self.log.push(Call::Function50 { i1 });
        reply
    }

    /// The version the native component reported.
    pub fn get_version(&mut self, reply: i32) -> (r: i32)
        ensures
            final(self)@ == old(self)@.logged(Call::GetVersion),
            r == reply,
    {
        self.log.push(Call::GetVersion);
        reply
    }

    /// Checks a version against the native component; the status is
    /// native-defined.
    pub fn check_version(&mut self, version: i32, reply: i32) -> (r: i32)
        ensures
            final(self)@ == old(self)@.logged(Call::CheckVersion { version }),
            r == reply,
    {
        self.log.push(Call::CheckVersion { version });
        reply
    }

    /// Unlocks the container; a nonzero reply is success.
    pub fn unlock(&mut self, reply: i32) -> (r: bool)
        ensures
            final(self)@ == old(self)@.logged(Call::Unlock),
            r == (reply != 0),
    {
        self.log.push(Call::Unlock);
        reply != 0
    }

    /// Locks the container; a nonzero reply is success.
    pub fn lock(&mut self, i1: i32, reply: i32) -> (r: bool)
        ensures
            final(self)@ == old(self)@.logged(Call::Lock { i1 }),
            r == (reply != 0),
    {
        self.log.push(Call::Lock { i1 });
        reply != 0
    }

    /// The ordered log of every native call this proxy has issued.
    pub fn call_log(&self) -> (r: &Vec<Call>)
        ensures
            r@ == self@.log,
    {
        &self.log
    }

    /// The file handles currently checked out, in issue order.
    pub fn outstanding_files(&self) -> (r: &Vec<i32>)
        ensures
            r@ == self@.files,
    {
        &self.files
    }

    /// The search handles currently checked out, in issue order.
    pub fn outstanding_searches(&self) -> (r: &Vec<i32>)
        ensures
            r@ == self@.searches,
    {
        &self.searches
    }

    /// Tears the session down, consuming the proxy: every outstanding
    /// search handle is released, then all file handles, then the container
    /// if it is still open, and the foreign object last.  The full call log
    /// is handed back for inspection.
    pub fn teardown(self, close_reply: i32) -> (log: Vec<Call>)
        ensures
            log@ == self@.log + teardown_calls(self@),
    {
        let ghost m = self@;
        let GFXFileManager { state, searches, log, .. } = self;
        let mut log = log;
        let n = searches.len();
        let mut i: usize = 0;
        while i < n
            invariant
                i <= n,
                n == searches@.len(),
                searches@ == m.searches,
                state == m.state,
                log@ == m.log + close_search_calls(m.searches.take(i as int)),
            decreases n - i,
        {
            let h = searches[i];
            log.push(Call::CloseSearchResult { handle: h });
            proof {
                assert(close_search_calls(m.searches.take(i as int + 1)) =~= close_search_calls(
                    m.searches.take(i as int),
                ).push(Call::CloseSearchResult { handle: m.searches[i as int] }));
            }
            i += 1;
        }
        log.push(Call::CloseAllFiles);
        if state == LifecycleState::Open {
            log.push(Call::CloseContainer);
        }
        log.push(Call::ReleaseObject);
        proof {
            assert(m.searches.take(n as int) =~= m.searches);
            assert(log@ =~= m.log + teardown_calls(m));
        }
        log
    }
}

/// Takes the first occurrence of `x` out of the registry, if any.
fn remove_handle(v: &mut Vec<i32>, x: i32)
    ensures
        final(v)@ == remove_first(old(v)@, x),
{
    let n = v.len();
    let mut i: usize = 0;
    while i < n
        invariant
            i <= n,
            n == v@.len(),
            v@ == old(v)@,
            forall|j: int| 0 <= j < i ==> v@[j] != x,
        decreases n - i,
    {
        if v[i] == x {
            proof {
                lemma_remove_first_at(v@, i as int, x);
            }
            v.remove(i);
            return ;
        }
        i += 1;
    }
    proof {
        lemma_remove_first_absent(v@, x);
    }
}

proof fn lemma_remove_first_at(s: Seq<i32>, i: int, x: i32)
    requires
        0 <= i < s.len(),
        s[i] == x,
        forall|j: int| 0 <= j < i ==> s[j] != x,
    ensures
        remove_first(s, x) == s.remove(i),
    decreases i,
{
    if i == 0 {
        assert(remove_first(s, x) =~= s.remove(0));
    } else {
        lemma_remove_first_at(s.drop_first(), i - 1, x);
        assert(remove_first(s, x) =~= s.remove(i));
    }
}

proof fn lemma_remove_first_absent(s: Seq<i32>, x: i32)
    requires
        forall|j: int| 0 <= j < s.len() ==> s[j] != x,
    ensures
        remove_first(s, x) == s,
    decreases s.len(),
{
    if s.len() == 0 {
        assert(remove_first(s, x) =~= s);
    } else {
        assert(s.drop_first() =~= s.subrange(1, s.len() as int));
        lemma_remove_first_absent(s.drop_first(), x);
        assert(remove_first(s, x) =~= s);
    }
}

/// A fresh proxy is not open; a successful container creation opens it;
/// a close closes it again.
pub proof fn lemma_lifecycle_walk(mode: Mode, version: i32, create_reply: i32, close_reply: i32)
    ensures
        !fresh_model(mode, version).is_open(),
        create_reply != 0 ==> create_container_step(
            fresh_model(mode, version),
            create_reply,
        ).is_open(),
        !close_container_step(
            create_container_step(fresh_model(mode, version), create_reply),
        ).is_open(),
{
}

/// Closing an already-closed proxy changes nothing: the close step is
/// idempotent, so no second native release can be recorded.
pub proof fn lemma_close_container_idempotent(m: ProxyModel)
    ensures
        close_container_step(close_container_step(m)) == close_container_step(m),
{
}

/// The call releases a checked-out handle: one search cursor, or all file
/// handles at once.
pub open spec fn is_handle_release(c: Call) -> bool {
    (c matches Call::CloseSearchResult { .. }) || c == Call::CloseAllFiles
}

/// A teardown's calls, pinned position by position: first one release per
/// outstanding search handle in registry order, then the close of all file
/// handles, then — only for an open container — its close, and the release
/// of the foreign object last.  In particular every handle release comes
/// before the container close.
pub proof fn lemma_teardown_order(m: ProxyModel)
    ensures
        m.is_open() ==> teardown_calls(m).len() == m.searches.len() + 3,
        !m.is_open() ==> teardown_calls(m).len() == m.searches.len() + 2,
        forall|k: int|
            0 <= k < m.searches.len() ==> teardown_calls(m)[k] == (Call::CloseSearchResult {
                handle: m.searches[k],
            }),
        teardown_calls(m)[m.searches.len() as int] == Call::CloseAllFiles,
        m.is_open() ==> teardown_calls(m)[m.searches.len() as int + 1] == Call::CloseContainer,
        teardown_calls(m).last() == Call::ReleaseObject,
        forall|i: int, j: int|
            0 <= i < teardown_calls(m).len() && 0 <= j < teardown_calls(m).len()
                && is_handle_release(teardown_calls(m)[i]) && teardown_calls(m)[j]
                == Call::CloseContainer ==> i < j,
{
    let s = teardown_calls(m);
    let n = m.searches.len() as int;
    assert forall|i: int, j: int|
        0 <= i < s.len() && 0 <= j < s.len() && is_handle_release(s[i]) && s[j]
            == Call::CloseContainer implies i < j by {
        if j < n {
            assert(s[j] == Call::CloseSearchResult { handle: m.searches[j] });
        }
        if i > n {
            assert(m.is_open() && i == n + 1 ==> s[i] == Call::CloseContainer);
        }
    }
}

} // verus!
