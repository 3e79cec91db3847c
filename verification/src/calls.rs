//! The dispatch-table descriptor: one record per native operation.
//!
//! The native component exposes its operations as a fixed, ordered table of
//! entry points; the ordinal position of a slot is the only real name an
//! operation has, and the order below must match the binary being wrapped.
//! A [`Call`] value records one dispatch together with the scalar arguments
//! that identify it, and the proxy keeps an ordered log of these records so
//! that the lifecycle discipline — which handle was released, and when — is
//! stated and checked over that log.  `CreateObject` and `ReleaseObject` are
//! the factory and release entry points, which stand beside the table rather
//! than in it, so they carry no slot ordinal.

use vstd::prelude::*;

verus! {

/// One recorded dispatch into the native component.
#[derive(Clone, Copy, PartialEq, Eq, Structural, Debug)]
pub enum Call {
    CreateObject { mode: i32, version: i32 },
    Mode,
    ConfigSet { i1: i32, i2: i32 },
    ConfigGet { i1: i32, i2: i32 },
    CreateContainer,
    OpenContainer { mode: i32 },
    CloseContainer,
    IsOpen,
    CloseAllFiles,
    MainModuleHandle,
    Function9 { i1: i32 },
    OpenFileCj { access: u32, unknown: i32 },
    OpenFile { access: u32, unknown: i32 },
    Function12,
    Function13,
    CreateFileCj { unknown: i32 },
    CreateFile { unknown: i32 },
    DeleteFile,
    CloseFile { handle: i32 },
    Read { handle: i32, bytes_to_read: i32 },
    Write { handle: i32, bytes_to_write: i32 },
    CmdLinePath,
    CmdLineExe,
    GetUnknown,
    SetUnknown { a: i32, b: i32 },
    CreateDir,
    DeleteDir,
    ResetDir,
    ChangeDir,
    GetDirName,
    SetVirtualPath,
    GetVirtualPath,
    FindFirstFile,
    FindNextFile { handle: i32 },
    CloseSearchResult { handle: i32 },
    FileNameFromHandle { handle: i32, count: usize },
    GetFileSize { handle: i32 },
    GetFileTime { handle: i32 },
    SetFileTime { handle: i32 },
    Seek { handle: i32, distance: i32, method: u32 },
    GetHwnd,
    SetHwnd { hwnd: usize },
    RegisterErrorHandler,
    ImportDir { create_target_dir: bool },
    ImportFile { create_target_dir: bool },
    ExportDir { create_target_dir: bool },
    ExportFile { create_target_dir: bool },
    FileExists { flags: i32 },
    ShowDialog,
    ForEachEntryInContainer,
    UpdateCurrentDir,
    Function50 { i1: i32 },
    GetVersion,
    CheckVersion { version: i32 },
    Lock { i1: i32 },
    Unlock,
    ReleaseObject,
}

impl Call {
    /// The ordinal of the table slot this call dispatches through, and
    /// `None` for the factory and release entry points, which are not table
    /// slots.
    pub open spec fn slot_spec(self) -> Option<u32> {
        match self {
            Call::CreateObject { .. } => None,
            Call::Mode => Some(0),
            Call::ConfigSet { .. } => Some(1),
            Call::ConfigGet { .. } => Some(2),
            Call::CreateContainer => Some(3),
            Call::OpenContainer { .. } => Some(4),
            Call::CloseContainer => Some(5),
            Call::IsOpen => Some(6),
            Call::CloseAllFiles => Some(7),
            Call::MainModuleHandle => Some(8),
            Call::Function9 { .. } => Some(9),
            Call::OpenFileCj { .. } => Some(10),
            Call::OpenFile { .. } => Some(11),
            Call::Function12 => Some(12),
            Call::Function13 => Some(13),
            Call::CreateFileCj { .. } => Some(14),
            Call::CreateFile { .. } => Some(15),
            Call::DeleteFile => Some(16),
            Call::CloseFile { .. } => Some(17),
            Call::Read { .. } => Some(18),
            Call::Write { .. } => Some(19),
            Call::CmdLinePath => Some(20),
            Call::CmdLineExe => Some(21),
            Call::GetUnknown => Some(22),
            Call::SetUnknown { .. } => Some(23),
            Call::CreateDir => Some(24),
            Call::DeleteDir => Some(25),
            Call::ResetDir => Some(26),
            Call::ChangeDir => Some(27),
            Call::GetDirName => Some(28),
            Call::SetVirtualPath => Some(29),
            Call::GetVirtualPath => Some(30),
            Call::FindFirstFile => Some(31),
            Call::FindNextFile { .. } => Some(32),
            Call::CloseSearchResult { .. } => Some(33),
            Call::FileNameFromHandle { .. } => Some(34),
            Call::GetFileSize { .. } => Some(35),
            Call::GetFileTime { .. } => Some(36),
            Call::SetFileTime { .. } => Some(37),
            Call::Seek { .. } => Some(38),
            Call::GetHwnd => Some(39),
            Call::SetHwnd { .. } => Some(40),
            Call::RegisterErrorHandler => Some(41),
            Call::ImportDir { .. } => Some(42),
            Call::ImportFile { .. } => Some(43),
            Call::ExportDir { .. } => Some(44),
            Call::ExportFile { .. } => Some(45),
            Call::FileExists { .. } => Some(46),
            Call::ShowDialog => Some(47),
            Call::ForEachEntryInContainer => Some(48),
            Call::UpdateCurrentDir => Some(49),
            Call::Function50 { .. } => Some(50),
            Call::GetVersion => Some(51),
            Call::CheckVersion { .. } => Some(52),
            Call::Lock { .. } => Some(53),
            Call::Unlock => Some(54),
            Call::ReleaseObject => None,
        }
    }

    /// The ordinal of the table slot this call dispatches through.
    pub fn slot(&self) -> (r: Option<u32>)
        ensures
            r == self.slot_spec(),
    {
        match self {
            Call::CreateObject { .. } => None,
            Call::Mode => Some(0),
            Call::ConfigSet { .. } => Some(1),
            Call::ConfigGet { .. } => Some(2),
            Call::CreateContainer => Some(3),
            Call::OpenContainer { .. } => Some(4),
            Call::CloseContainer => Some(5),
            Call::IsOpen => Some(6),
            Call::CloseAllFiles => Some(7),
            Call::MainModuleHandle => Some(8),
            Call::Function9 { .. } => Some(9),
            Call::OpenFileCj { .. } => Some(10),
            Call::OpenFile { .. } => Some(11),
            Call::Function12 => Some(12),
            Call::Function13 => Some(13),
            Call::CreateFileCj { .. } => Some(14),
            Call::CreateFile { .. } => Some(15),
            Call::DeleteFile => Some(16),
            Call::CloseFile { .. } => Some(17),
            Call::Read { .. } => Some(18),
            Call::Write { .. } => Some(19),
            Call::CmdLinePath => Some(20),
            Call::CmdLineExe => Some(21),
            Call::GetUnknown => Some(22),
            Call::SetUnknown { .. } => Some(23),
            Call::CreateDir => Some(24),
            Call::DeleteDir => Some(25),
            Call::ResetDir => Some(26),
            Call::ChangeDir => Some(27),
            Call::GetDirName => Some(28),
            Call::SetVirtualPath => Some(29),
            Call::GetVirtualPath => Some(30),
            Call::FindFirstFile => Some(31),
            Call::FindNextFile { .. } => Some(32),
            Call::CloseSearchResult { .. } => Some(33),
            Call::FileNameFromHandle { .. } => Some(34),
            Call::GetFileSize { .. } => Some(35),
            Call::GetFileTime { .. } => Some(36),
            Call::SetFileTime { .. } => Some(37),
            Call::Seek { .. } => Some(38),
            Call::GetHwnd => Some(39),
            Call::SetHwnd { .. } => Some(40),
            Call::RegisterErrorHandler => Some(41),
            Call::ImportDir { .. } => Some(42),
            Call::ImportFile { .. } => Some(43),
            Call::ExportDir { .. } => Some(44),
            Call::ExportFile { .. } => Some(45),
            Call::FileExists { .. } => Some(46),
            Call::ShowDialog => Some(47),
            Call::ForEachEntryInContainer => Some(48),
            Call::UpdateCurrentDir => Some(49),
            Call::Function50 { .. } => Some(50),
            Call::GetVersion => Some(51),
            Call::CheckVersion { .. } => Some(52),
            Call::Lock { .. } => Some(53),
            Call::Unlock => Some(54),
            Call::ReleaseObject => None,
        }
    }
}

} // verus!
