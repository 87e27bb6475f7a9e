//! Fixed-shape records of the broker wire protocol.
//!
//! Every request and reply travels as one 64-byte record: a header
//! (opcode and declared payload sizes for a request, error code and
//! payload size for a reply) followed by the fields of the opcode's
//! own record.  The structs here give those per-opcode records; the
//! byte-level framing lives in `codec`.

use vstd::prelude::*;

verus! {

pub type Affinity = u64;
pub type FilePos = u64;
pub type IoctlCode = u32;
pub type DataSize = u32;
pub type Atom = u32;
pub type LParam = u64;
pub type MemSize = u64;
pub type ApcParam = u64;
pub type AbsoluteTime = i64;
pub type Timeout = i64;
pub type ThreadId = u32;
pub type ProcessId = u32;
pub type ClientPtr = u64;
pub type ModHandle = u64;
pub type ObjHandle = u32;
pub type UserHandle = u32;

/// Protocol version sent with the bootstrap pipe descriptor.
pub const SERVER_PROTOCOL_VERSION: u32 = 793;

/// Number of opcodes in the closed request enumeration.
pub const REQUEST_TYPE_COUNT: u32 = 284;

/// The closed opcode set: one variant per request shape.
#[derive(Clone, Copy, Debug, PartialEq, Eq, Structural, Default)]
pub enum RequestType {
    #[default]
    NewProcess,
    GetNewProcessInfo,
    NewThread,
    GetStartupInfo,
    InitProcessDone,
    InitFirstThread,
    InitThread,
    TerminateProcess,
    TerminateThread,
    GetProcessInfo,
    GetProcessDebugInfo,
    GetProcessImageName,
    GetProcessVmCounters,
    SetProcessInfo,
    GetThreadInfo,
    GetThreadTimes,
    SetThreadInfo,
    SuspendThread,
    ResumeThread,
    QueueApc,
    GetApcResult,
    CloseHandle,
    SetHandleInfo,
    DupHandle,
    CompareObjects,
    MakeTemporary,
    OpenProcess,
    OpenThread,
    Select,
    CreateEvent,
    EventOp,
    QueryEvent,
    OpenEvent,
    CreateKeyedEvent,
    OpenKeyedEvent,
    CreateMutex,
    ReleaseMutex,
    OpenMutex,
    QueryMutex,
    CreateSemaphore,
    ReleaseSemaphore,
    QuerySemaphore,
    OpenSemaphore,
    CreateFile,
    OpenFileObject,
    AllocFileHandle,
    GetHandleUnixName,
    GetHandleFd,
    GetDirectoryCacheEntry,
    Flush,
    GetFileInfo,
    GetVolumeInfo,
    LockFile,
    UnlockFile,
    RecvSocket,
    SendSocket,
    SocketGetEvents,
    SocketSendIcmpId,
    SocketGetIcmpId,
    GetNextConsoleRequest,
    ReadDirectoryChanges,
    ReadChange,
    CreateMapping,
    OpenMapping,
    GetMappingInfo,
    GetImageMapAddress,
    MapView,
    MapImageView,
    MapBuiltinView,
    GetImageViewInfo,
    UnmapView,
    GetMappingCommittedRange,
    AddMappingCommittedRange,
    IsSameMapping,
    GetMappingFilename,
    ListProcesses,
    CreateDebugObj,
    WaitDebugEvent,
    QueueExceptionEvent,
    GetExceptionStatus,
    ContinueDebugEvent,
    DebugProcess,
    SetDebugObjInfo,
    ReadProcessMemory,
    WriteProcessMemory,
    CreateKey,
    OpenKey,
    DeleteKey,
    FlushKey,
    EnumKey,
    SetKeyValue,
    GetKeyValue,
    EnumKeyValue,
    DeleteKeyValue,
    LoadRegistry,
    UnloadRegistry,
    SaveRegistry,
    SetRegistryNotification,
    RenameKey,
    CreateTimer,
    OpenTimer,
    SetTimer,
    CancelTimer,
    GetTimerInfo,
    GetThreadContext,
    SetThreadContext,
    GetSelectorEntry,
    AddAtom,
    DeleteAtom,
    FindAtom,
    GetAtomInformation,
    GetMsgQueue,
    SetQueueFd,
    SetQueueMask,
    GetQueueStatus,
    GetProcessIdleEvent,
    SendMessage,
    PostQuitMessage,
    SendHardwareMessage,
    GetMessage,
    ReplyMessage,
    AcceptHardwareMessage,
    GetMessageReply,
    SetWinTimer,
    KillWinTimer,
    IsWindowHung,
    GetSerialInfo,
    SetSerialInfo,
    CancelSync,
    RegisterAsync,
    CancelAsync,
    GetAsyncResult,
    SetAsyncDirectResult,
    Read,
    Write,
    Ioctl,
    SetIrpResult,
    CreateNamedPipe,
    SetNamedPipeInfo,
    CreateWindow,
    DestroyWindow,
    GetDesktopWindow,
    SetWindowOwner,
    GetWindowInfo,
    SetWindowInfo,
    SetParent,
    GetWindowParents,
    GetWindowChildren,
    GetWindowChildrenFromPoint,
    GetWindowTree,
    SetWindowPos,
    GetWindowRectangles,
    GetWindowText,
    SetWindowText,
    GetWindowsOffset,
    GetVisibleRegion,
    GetSurfaceRegion,
    GetWindowRegion,
    SetWindowRegion,
    GetUpdateRegion,
    UpdateWindowZorder,
    RedrawWindow,
    SetWindowProperty,
    RemoveWindowProperty,
    GetWindowProperty,
    GetWindowProperties,
    CreateWinstation,
    OpenWinstation,
    CloseWinstation,
    GetProcessWinstation,
    SetProcessWinstation,
    EnumWinstation,
    CreateDesktop,
    OpenDesktop,
    OpenInputDesktop,
    CloseDesktop,
    GetThreadDesktop,
    SetThreadDesktop,
    EnumDesktop,
    SetUserObjectInfo,
    RegisterHotkey,
    UnregisterHotkey,
    AttachThreadInput,
    GetThreadInput,
    GetLastInputTime,
    GetKeyState,
    SetKeyState,
    SetForegroundWindow,
    SetFocusWindow,
    SetActiveWindow,
    SetCaptureWindow,
    SetCaretWindow,
    SetCaretInfo,
    SetHook,
    RemoveHook,
    StartHookChain,
    FinishHookChain,
    GetHookInfo,
    CreateClass,
    DestroyClass,
    SetClassInfo,
    OpenClipboard,
    CloseClipboard,
    EmptyClipboard,
    SetClipboardData,
    GetClipboardData,
    GetClipboardFormats,
    EnumClipboardFormats,
    ReleaseClipboard,
    GetClipboardInfo,
    SetClipboardViewer,
    AddClipboardListener,
    RemoveClipboardListener,
    CreateToken,
    OpenToken,
    SetGlobalWindows,
    AdjustTokenPrivileges,
    GetTokenPrivileges,
    CheckTokenPrivileges,
    DuplicateToken,
    FilterToken,
    AccessCheck,
    GetTokenSid,
    GetTokenGroups,
    GetTokenDefaultDacl,
    SetTokenDefaultDacl,
    SetSecurityObject,
    GetSecurityObject,
    GetSystemHandles,
    CreateMailslot,
    SetMailslotInfo,
    CreateDirectory,
    OpenDirectory,
    GetDirectoryEntry,
    CreateSymlink,
    OpenSymlink,
    QuerySymlink,
    GetObjectInfo,
    GetObjectName,
    GetObjectType,
    GetObjectTypes,
    AllocateLocallyUniqueId,
    CreateDeviceManager,
    CreateDevice,
    DeleteDevice,
    GetNextDeviceRequest,
    GetKernelObjectPtr,
    SetKernelObjectPtr,
    GrabKernelObject,
    ReleaseKernelObject,
    GetKernelObjectHandle,
    MakeProcessSystem,
    GetTokenInfo,
    CreateLinkedToken,
    CreateCompletion,
    OpenCompletion,
    AddCompletion,
    RemoveCompletion,
    QueryCompletion,
    SetCompletionInfo,
    AddFdCompletion,
    SetFdCompletionMode,
    SetFdDispInfo,
    SetFdNameInfo,
    SetFdEofInfo,
    GetWindowLayeredInfo,
    SetWindowLayeredInfo,
    AllocUserHandle,
    FreeUserHandle,
    SetCursor,
    GetCursorHistory,
    GetRawinputBuffer,
    UpdateRawinputDevices,
    CreateJob,
    OpenJob,
    AssignJob,
    ProcessInJob,
    SetJobLimits,
    SetJobCompletionPort,
    GetJobInfo,
    TerminateJob,
    SuspendProcess,
    ResumeProcess,
    GetNextThread,
}

#[derive(Clone, Copy, Debug, PartialEq, Eq, Structural, Default)]
pub struct ApcResult {}

#[derive(Clone, Copy, Debug, PartialEq, Eq, Structural, Default)]
pub struct AsyncData {}

#[derive(Clone, Copy, Debug, PartialEq, Eq, Structural, Default)]
pub struct GenericMap {}

#[derive(Clone, Copy, Debug, PartialEq, Eq, Structural, Default)]
pub struct HardwareInput {}

#[derive(Clone, Copy, Debug, PartialEq, Eq, Structural, Default)]
pub struct IrpParam {}

#[derive(Clone, Copy, Debug, PartialEq, Eq, Structural, Default)]
pub struct LUID {}

#[derive(Clone, Copy, Debug, PartialEq, Eq, Structural, Default)]
pub struct Rect {}

#[derive(Clone, Copy, Debug, PartialEq, Eq, Structural, Default)]
pub struct RequestHeader {
    pub req: RequestType,
    pub request_size: DataSize,
    pub reply_size: DataSize,
}

#[derive(Clone, Copy, Debug, PartialEq, Eq, Structural, Default)]
pub struct ReplyHeader {
    pub error: u32,
    pub reply_size: DataSize,
}

#[derive(Clone, Copy, Debug, PartialEq, Eq, Structural, Default)]
pub struct NewProcessRequest {
    pub header: RequestHeader,
    pub token: ObjHandle,
    pub debug: ObjHandle,
    pub parent_process: ObjHandle,
    pub flags: u32,
    pub socket_fd: i32,
    pub access: u32,
    pub machine: u16,
    pub info_size: DataSize,
    pub handles_size: DataSize,
    pub jobs_size: DataSize,
}

#[derive(Clone, Copy, Debug, PartialEq, Eq, Structural, Default)]
pub struct NewProcessReply {
    pub header: ReplyHeader,
    pub info: ObjHandle,
    pub pid: ProcessId,
    pub handle: ObjHandle,
}

#[derive(Clone, Copy, Debug, PartialEq, Eq, Structural, Default)]
pub struct GetNewProcessInfoRequest {
    pub header: RequestHeader,
    pub info: ObjHandle,
}

#[derive(Clone, Copy, Debug, PartialEq, Eq, Structural, Default)]
pub struct GetNewProcessInfoReply {
    pub header: ReplyHeader,
    pub success: i32,
    pub exit_code: i32,
}

#[derive(Clone, Copy, Debug, PartialEq, Eq, Structural, Default)]
pub struct NewThreadRequest {
    pub header: RequestHeader,
    pub process: ObjHandle,
    pub access: u32,
    pub flags: u32,
    pub request_fd: i32,
}

#[derive(Clone, Copy, Debug, PartialEq, Eq, Structural, Default)]
pub struct NewThreadReply {
    pub header: ReplyHeader,
    pub tid: ThreadId,
    pub handle: ObjHandle,
}

#[derive(Clone, Copy, Debug, PartialEq, Eq, Structural, Default)]
pub struct GetStartupInfoRequest {
    pub header: RequestHeader,
}

#[derive(Clone, Copy, Debug, PartialEq, Eq, Structural, Default)]
pub struct GetStartupInfoReply {
    pub header: ReplyHeader,
    pub info_size: DataSize,
    pub machine: u16,
}

#[derive(Clone, Copy, Debug, PartialEq, Eq, Structural, Default)]
pub struct InitProcessDoneRequest {
    pub header: RequestHeader,
    pub teb: ClientPtr,
    pub peb: ClientPtr,
    pub ldt_copy: ClientPtr,
}

#[derive(Clone, Copy, Debug, PartialEq, Eq, Structural, Default)]
pub struct InitProcessDoneReply {
    pub header: ReplyHeader,
    pub suspend: i32,
}

#[derive(Clone, Copy, Debug, PartialEq, Eq, Structural, Default)]
pub struct InitFirstThreadRequest {
    pub header: RequestHeader,
    pub unix_pid: i32,
    pub unix_tid: i32,
    pub debug_level: i32,
    pub reply_fd: i32,
    pub wait_fd: i32,
}

#[derive(Clone, Copy, Debug, PartialEq, Eq, Structural, Default)]
pub struct InitFirstThreadReply {
    pub header: ReplyHeader,
    pub pid: ProcessId,
    pub tid: ThreadId,
    pub server_start: Timeout,
    pub session_id: u32,
    pub info_size: DataSize,
}

#[derive(Clone, Copy, Debug, PartialEq, Eq, Structural, Default)]
pub struct InitThreadRequest {
    pub header: RequestHeader,
    pub unix_tid: i32,
    pub reply_fd: i32,
    pub wait_fd: i32,
    pub teb: ClientPtr,
    pub entry: ClientPtr,
}

#[derive(Clone, Copy, Debug, PartialEq, Eq, Structural, Default)]
pub struct InitThreadReply {
    pub header: ReplyHeader,
    pub suspend: i32,
}

#[derive(Clone, Copy, Debug, PartialEq, Eq, Structural, Default)]
pub struct TerminateProcessRequest {
    pub header: RequestHeader,
    pub handle: ObjHandle,
    pub exit_code: i32,
}

#[derive(Clone, Copy, Debug, PartialEq, Eq, Structural, Default)]
pub struct TerminateProcessReply {
    pub header: ReplyHeader,
    pub _self: i32,
}

#[derive(Clone, Copy, Debug, PartialEq, Eq, Structural, Default)]
pub struct TerminateThreadRequest {
    pub header: RequestHeader,
    pub handle: ObjHandle,
    pub exit_code: i32,
}

#[derive(Clone, Copy, Debug, PartialEq, Eq, Structural, Default)]
pub struct TerminateThreadReply {
    pub header: ReplyHeader,
    pub _self: i32,
}

#[derive(Clone, Copy, Debug, PartialEq, Eq, Structural, Default)]
pub struct GetProcessInfoRequest {
    pub header: RequestHeader,
    pub handle: ObjHandle,
}

#[derive(Clone, Copy, Debug, PartialEq, Eq, Structural, Default)]
pub struct GetProcessInfoReply {
    pub header: ReplyHeader,
    pub pid: ProcessId,
    pub ppid: ProcessId,
    pub affinity: Affinity,
    pub peb: ClientPtr,
    pub start_time: Timeout,
    pub end_time: Timeout,
    pub session_id: u32,
    pub exit_code: i32,
    pub priority: i32,
    pub machine: u16,
}

#[derive(Clone, Copy, Debug, PartialEq, Eq, Structural, Default)]
pub struct GetProcessDebugInfoRequest {
    pub header: RequestHeader,
    pub handle: ObjHandle,
}

#[derive(Clone, Copy, Debug, PartialEq, Eq, Structural, Default)]
pub struct GetProcessDebugInfoReply {
    pub header: ReplyHeader,
    pub debug: ObjHandle,
    pub debug_children: i32,
}

#[derive(Clone, Copy, Debug, PartialEq, Eq, Structural, Default)]
pub struct GetProcessImageNameRequest {
    pub header: RequestHeader,
    pub handle: ObjHandle,
    pub win32: i32,
}

#[derive(Clone, Copy, Debug, PartialEq, Eq, Structural, Default)]
pub struct GetProcessImageNameReply {
    pub header: ReplyHeader,
    pub len: DataSize,
}

#[derive(Clone, Copy, Debug, PartialEq, Eq, Structural, Default)]
pub struct GetProcessVmCountersRequest {
    pub header: RequestHeader,
    pub handle: ObjHandle,
}

#[derive(Clone, Copy, Debug, PartialEq, Eq, Structural, Default)]
pub struct GetProcessVmCountersReply {
    pub header: ReplyHeader,
    pub peak_virtual_size: MemSize,
    pub virtual_size: MemSize,
    pub peak_working_set_size: MemSize,
    pub working_set_size: MemSize,
    pub pagefile_usage: MemSize,
    pub peak_pagefile_usage: MemSize,
}

#[derive(Clone, Copy, Debug, PartialEq, Eq, Structural, Default)]
pub struct SetProcessInfoRequest {
    pub header: RequestHeader,
    pub handle: ObjHandle,
    pub mask: i32,
    pub priority: i32,
    pub affinity: Affinity,
}

#[derive(Clone, Copy, Debug, PartialEq, Eq, Structural, Default)]
pub struct SetProcessInfoReply {
    pub header: ReplyHeader,
}

#[derive(Clone, Copy, Debug, PartialEq, Eq, Structural, Default)]
pub struct GetThreadInfoRequest {
    pub header: RequestHeader,
    pub handle: ObjHandle,
    pub access: u32,
}

#[derive(Clone, Copy, Debug, PartialEq, Eq, Structural, Default)]
pub struct GetThreadInfoReply {
    pub header: ReplyHeader,
    pub pid: ProcessId,
    pub tid: ThreadId,
    pub teb: ClientPtr,
    pub entry_point: ClientPtr,
    pub affinity: Affinity,
    pub exit_code: i32,
    pub priority: i32,
    pub last: i32,
    pub suspend_count: i32,
    pub flags: u32,
    pub desc_len: DataSize,
}

#[derive(Clone, Copy, Debug, PartialEq, Eq, Structural, Default)]
pub struct GetThreadTimesRequest {
    pub header: RequestHeader,
    pub handle: ObjHandle,
}

#[derive(Clone, Copy, Debug, PartialEq, Eq, Structural, Default)]
pub struct GetThreadTimesReply {
    pub header: ReplyHeader,
    pub creation_time: Timeout,
    pub exit_time: Timeout,
    pub unix_pid: i32,
    pub unix_tid: i32,
}

#[derive(Clone, Copy, Debug, PartialEq, Eq, Structural, Default)]
pub struct SetThreadInfoRequest {
    pub header: RequestHeader,
    pub handle: ObjHandle,
    pub mask: i32,
    pub priority: i32,
    pub affinity: Affinity,
    pub entry_point: ClientPtr,
    pub token: ObjHandle,
}

#[derive(Clone, Copy, Debug, PartialEq, Eq, Structural, Default)]
pub struct SetThreadInfoReply {
    pub header: ReplyHeader,
}

#[derive(Clone, Copy, Debug, PartialEq, Eq, Structural, Default)]
pub struct SuspendThreadRequest {
    pub header: RequestHeader,
    pub handle: ObjHandle,
}

#[derive(Clone, Copy, Debug, PartialEq, Eq, Structural, Default)]
pub struct SuspendThreadReply {
    pub header: ReplyHeader,
    pub count: i32,
}

#[derive(Clone, Copy, Debug, PartialEq, Eq, Structural, Default)]
pub struct ResumeThreadRequest {
    pub header: RequestHeader,
    pub handle: ObjHandle,
}

#[derive(Clone, Copy, Debug, PartialEq, Eq, Structural, Default)]
pub struct ResumeThreadReply {
    pub header: ReplyHeader,
    pub count: i32,
}

#[derive(Clone, Copy, Debug, PartialEq, Eq, Structural, Default)]
pub struct QueueApcRequest {
    pub header: RequestHeader,
    pub handle: ObjHandle,
}

#[derive(Clone, Copy, Debug, PartialEq, Eq, Structural, Default)]
pub struct QueueApcReply {
    pub header: ReplyHeader,
    pub handle: ObjHandle,
    pub _self: i32,
}

#[derive(Clone, Copy, Debug, PartialEq, Eq, Structural, Default)]
pub struct GetApcResultRequest {
    pub header: RequestHeader,
    pub handle: ObjHandle,
}

#[derive(Clone, Copy, Debug, PartialEq, Eq, Structural, Default)]
pub struct GetApcResultReply {
    pub header: ReplyHeader,
    pub result: ApcResult,
}

#[derive(Clone, Copy, Debug, PartialEq, Eq, Structural, Default)]
pub struct CloseHandleRequest {
    pub header: RequestHeader,
    pub handle: ObjHandle,
}

#[derive(Clone, Copy, Debug, PartialEq, Eq, Structural, Default)]
pub struct CloseHandleReply {
    pub header: ReplyHeader,
}

#[derive(Clone, Copy, Debug, PartialEq, Eq, Structural, Default)]
pub struct SetHandleInfoRequest {
    pub header: RequestHeader,
    pub handle: ObjHandle,
    pub flags: i32,
    pub mask: i32,
}

#[derive(Clone, Copy, Debug, PartialEq, Eq, Structural, Default)]
pub struct SetHandleInfoReply {
    pub header: ReplyHeader,
    pub old_flags: i32,
}

#[derive(Clone, Copy, Debug, PartialEq, Eq, Structural, Default)]
pub struct DupHandleRequest {
    pub header: RequestHeader,
    pub src_process: ObjHandle,
    pub src_handle: ObjHandle,
    pub dst_process: ObjHandle,
    pub access: u32,
    pub attributes: u32,
    pub options: u32,
}

#[derive(Clone, Copy, Debug, PartialEq, Eq, Structural, Default)]
pub struct DupHandleReply {
    pub header: ReplyHeader,
    pub handle: ObjHandle,
}

#[derive(Clone, Copy, Debug, PartialEq, Eq, Structural, Default)]
pub struct CompareObjectsRequest {
    pub header: RequestHeader,
    pub first: ObjHandle,
    pub second: ObjHandle,
}

#[derive(Clone, Copy, Debug, PartialEq, Eq, Structural, Default)]
pub struct CompareObjectsReply {
    pub header: ReplyHeader,
}

#[derive(Clone, Copy, Debug, PartialEq, Eq, Structural, Default)]
pub struct MakeTemporaryRequest {
    pub header: RequestHeader,
    pub handle: ObjHandle,
}

#[derive(Clone, Copy, Debug, PartialEq, Eq, Structural, Default)]
pub struct MakeTemporaryReply {
    pub header: ReplyHeader,
}

#[derive(Clone, Copy, Debug, PartialEq, Eq, Structural, Default)]
pub struct OpenProcessRequest {
    pub header: RequestHeader,
    pub pid: ProcessId,
    pub access: u32,
    pub attributes: u32,
}

#[derive(Clone, Copy, Debug, PartialEq, Eq, Structural, Default)]
pub struct OpenProcessReply {
    pub header: ReplyHeader,
    pub handle: ObjHandle,
}

#[derive(Clone, Copy, Debug, PartialEq, Eq, Structural, Default)]
pub struct OpenThreadRequest {
    pub header: RequestHeader,
    pub tid: ThreadId,
    pub access: u32,
    pub attributes: u32,
}

#[derive(Clone, Copy, Debug, PartialEq, Eq, Structural, Default)]
pub struct OpenThreadReply {
    pub header: ReplyHeader,
    pub handle: ObjHandle,
}

#[derive(Clone, Copy, Debug, PartialEq, Eq, Structural, Default)]
pub struct SelectRequest {
    pub header: RequestHeader,
    pub flags: i32,
    pub cookie: ClientPtr,
    pub timeout: AbsoluteTime,
    pub size: DataSize,
    pub prev_apc: ObjHandle,
}

#[derive(Clone, Copy, Debug, PartialEq, Eq, Structural, Default)]
pub struct SelectReply {
    pub header: ReplyHeader,
    pub apc_handle: ObjHandle,
    pub signaled: i32,
}

#[derive(Clone, Copy, Debug, PartialEq, Eq, Structural, Default)]
pub struct CreateEventRequest {
    pub header: RequestHeader,
    pub access: u32,
    pub manual_reset: i32,
    pub initial_state: i32,
}

#[derive(Clone, Copy, Debug, PartialEq, Eq, Structural, Default)]
pub struct CreateEventReply {
    pub header: ReplyHeader,
    pub handle: ObjHandle,
}

#[derive(Clone, Copy, Debug, PartialEq, Eq, Structural, Default)]
pub struct EventOpRequest {
    pub header: RequestHeader,
    pub handle: ObjHandle,
    pub op: i32,
}

#[derive(Clone, Copy, Debug, PartialEq, Eq, Structural, Default)]
pub struct EventOpReply {
    pub header: ReplyHeader,
    pub state: i32,
}

#[derive(Clone, Copy, Debug, PartialEq, Eq, Structural, Default)]
pub struct QueryEventRequest {
    pub header: RequestHeader,
    pub handle: ObjHandle,
}

#[derive(Clone, Copy, Debug, PartialEq, Eq, Structural, Default)]
pub struct QueryEventReply {
    pub header: ReplyHeader,
    pub manual_reset: i32,
    pub state: i32,
}

#[derive(Clone, Copy, Debug, PartialEq, Eq, Structural, Default)]
pub struct OpenEventRequest {
    pub header: RequestHeader,
    pub access: u32,
    pub attributes: u32,
    pub rootdir: ObjHandle,
}

#[derive(Clone, Copy, Debug, PartialEq, Eq, Structural, Default)]
pub struct OpenEventReply {
    pub header: ReplyHeader,
    pub handle: ObjHandle,
}

#[derive(Clone, Copy, Debug, PartialEq, Eq, Structural, Default)]
pub struct CreateKeyedEventRequest {
    pub header: RequestHeader,
    pub access: u32,
}

#[derive(Clone, Copy, Debug, PartialEq, Eq, Structural, Default)]
pub struct CreateKeyedEventReply {
    pub header: ReplyHeader,
    pub handle: ObjHandle,
}

#[derive(Clone, Copy, Debug, PartialEq, Eq, Structural, Default)]
pub struct OpenKeyedEventRequest {
    pub header: RequestHeader,
    pub access: u32,
    pub attributes: u32,
    pub rootdir: ObjHandle,
}

#[derive(Clone, Copy, Debug, PartialEq, Eq, Structural, Default)]
pub struct OpenKeyedEventReply {
    pub header: ReplyHeader,
    pub handle: ObjHandle,
}

#[derive(Clone, Copy, Debug, PartialEq, Eq, Structural, Default)]
pub struct CreateMutexRequest {
    pub header: RequestHeader,
    pub access: u32,
    pub owned: i32,
}

#[derive(Clone, Copy, Debug, PartialEq, Eq, Structural, Default)]
pub struct CreateMutexReply {
    pub header: ReplyHeader,
    pub handle: ObjHandle,
}

#[derive(Clone, Copy, Debug, PartialEq, Eq, Structural, Default)]
pub struct ReleaseMutexRequest {
    pub header: RequestHeader,
    pub handle: ObjHandle,
}

#[derive(Clone, Copy, Debug, PartialEq, Eq, Structural, Default)]
pub struct ReleaseMutexReply {
    pub header: ReplyHeader,
    pub prev_count: u32,
}

#[derive(Clone, Copy, Debug, PartialEq, Eq, Structural, Default)]
pub struct OpenMutexRequest {
    pub header: RequestHeader,
    pub access: u32,
    pub attributes: u32,
    pub rootdir: ObjHandle,
}

#[derive(Clone, Copy, Debug, PartialEq, Eq, Structural, Default)]
pub struct OpenMutexReply {
    pub header: ReplyHeader,
    pub handle: ObjHandle,
}

#[derive(Clone, Copy, Debug, PartialEq, Eq, Structural, Default)]
pub struct QueryMutexRequest {
    pub header: RequestHeader,
    pub handle: ObjHandle,
}

#[derive(Clone, Copy, Debug, PartialEq, Eq, Structural, Default)]
pub struct QueryMutexReply {
    pub header: ReplyHeader,
    pub count: u32,
    pub owned: i32,
    pub abandoned: i32,
}

#[derive(Clone, Copy, Debug, PartialEq, Eq, Structural, Default)]
pub struct CreateSemaphoreRequest {
    pub header: RequestHeader,
    pub access: u32,
    pub initial: u32,
    pub max: u32,
}

#[derive(Clone, Copy, Debug, PartialEq, Eq, Structural, Default)]
pub struct CreateSemaphoreReply {
    pub header: ReplyHeader,
    pub handle: ObjHandle,
}

#[derive(Clone, Copy, Debug, PartialEq, Eq, Structural, Default)]
pub struct ReleaseSemaphoreRequest {
    pub header: RequestHeader,
    pub handle: ObjHandle,
    pub count: u32,
}

#[derive(Clone, Copy, Debug, PartialEq, Eq, Structural, Default)]
pub struct ReleaseSemaphoreReply {
    pub header: ReplyHeader,
    pub prev_count: u32,
}

#[derive(Clone, Copy, Debug, PartialEq, Eq, Structural, Default)]
pub struct QuerySemaphoreRequest {
    pub header: RequestHeader,
    pub handle: ObjHandle,
}

#[derive(Clone, Copy, Debug, PartialEq, Eq, Structural, Default)]
pub struct QuerySemaphoreReply {
    pub header: ReplyHeader,
    pub current: u32,
    pub max: u32,
}

#[derive(Clone, Copy, Debug, PartialEq, Eq, Structural, Default)]
pub struct OpenSemaphoreRequest {
    pub header: RequestHeader,
    pub access: u32,
    pub attributes: u32,
    pub rootdir: ObjHandle,
}

#[derive(Clone, Copy, Debug, PartialEq, Eq, Structural, Default)]
pub struct OpenSemaphoreReply {
    pub header: ReplyHeader,
    pub handle: ObjHandle,
}

#[derive(Clone, Copy, Debug, PartialEq, Eq, Structural, Default)]
pub struct CreateFileRequest {
    pub header: RequestHeader,
    pub access: u32,
    pub sharing: u32,
    pub create: i32,
    pub options: u32,
    pub attrs: u32,
}

#[derive(Clone, Copy, Debug, PartialEq, Eq, Structural, Default)]
pub struct CreateFileReply {
    pub header: ReplyHeader,
    pub handle: ObjHandle,
}

#[derive(Clone, Copy, Debug, PartialEq, Eq, Structural, Default)]
pub struct OpenFileObjectRequest {
    pub header: RequestHeader,
    pub access: u32,
    pub attributes: u32,
    pub rootdir: ObjHandle,
    pub sharing: u32,
    pub options: u32,
}

#[derive(Clone, Copy, Debug, PartialEq, Eq, Structural, Default)]
pub struct OpenFileObjectReply {
    pub header: ReplyHeader,
    pub handle: ObjHandle,
}

#[derive(Clone, Copy, Debug, PartialEq, Eq, Structural, Default)]
pub struct AllocFileHandleRequest {
    pub header: RequestHeader,
    pub access: u32,
    pub attributes: u32,
    pub fd: i32,
}

#[derive(Clone, Copy, Debug, PartialEq, Eq, Structural, Default)]
pub struct AllocFileHandleReply {
    pub header: ReplyHeader,
    pub handle: ObjHandle,
}

#[derive(Clone, Copy, Debug, PartialEq, Eq, Structural, Default)]
pub struct GetHandleUnixNameRequest {
    pub header: RequestHeader,
    pub handle: ObjHandle,
}

#[derive(Clone, Copy, Debug, PartialEq, Eq, Structural, Default)]
pub struct GetHandleUnixNameReply {
    pub header: ReplyHeader,
    pub name_len: DataSize,
}

#[derive(Clone, Copy, Debug, PartialEq, Eq, Structural, Default)]
pub struct GetHandleFdRequest {
    pub header: RequestHeader,
    pub handle: ObjHandle,
}

#[derive(Clone, Copy, Debug, PartialEq, Eq, Structural, Default)]
pub struct GetHandleFdReply {
    pub header: ReplyHeader,
    pub _type: i32,
    pub cacheable: i32,
    pub access: u32,
    pub options: u32,
}

#[derive(Clone, Copy, Debug, PartialEq, Eq, Structural, Default)]
pub struct GetDirectoryCacheEntryRequest {
    pub header: RequestHeader,
    pub handle: ObjHandle,
}

#[derive(Clone, Copy, Debug, PartialEq, Eq, Structural, Default)]
pub struct GetDirectoryCacheEntryReply {
    pub header: ReplyHeader,
    pub entry: i32,
}

#[derive(Clone, Copy, Debug, PartialEq, Eq, Structural, Default)]
pub struct FlushRequest {
    pub header: RequestHeader,
    pub _async: AsyncData,
}

#[derive(Clone, Copy, Debug, PartialEq, Eq, Structural, Default)]
pub struct FlushReply {
    pub header: ReplyHeader,
    pub event: ObjHandle,
}

#[derive(Clone, Copy, Debug, PartialEq, Eq, Structural, Default)]
pub struct GetFileInfoRequest {
    pub header: RequestHeader,
    pub handle: ObjHandle,
    pub info_class: u32,
}

#[derive(Clone, Copy, Debug, PartialEq, Eq, Structural, Default)]
pub struct GetFileInfoReply {
    pub header: ReplyHeader,
}

#[derive(Clone, Copy, Debug, PartialEq, Eq, Structural, Default)]
pub struct GetVolumeInfoRequest {
    pub header: RequestHeader,
    pub handle: ObjHandle,
    pub _async: AsyncData,
    pub info_class: u32,
}

#[derive(Clone, Copy, Debug, PartialEq, Eq, Structural, Default)]
pub struct GetVolumeInfoReply {
    pub header: ReplyHeader,
    pub wait: ObjHandle,
}

#[derive(Clone, Copy, Debug, PartialEq, Eq, Structural, Default)]
pub struct LockFileRequest {
    pub header: RequestHeader,
    pub handle: ObjHandle,
    pub offset: FilePos,
    pub count: FilePos,
    pub shared: i32,
    pub wait: i32,
}

#[derive(Clone, Copy, Debug, PartialEq, Eq, Structural, Default)]
pub struct LockFileReply {
    pub header: ReplyHeader,
    pub handle: ObjHandle,
    pub overlapped: i32,
}

#[derive(Clone, Copy, Debug, PartialEq, Eq, Structural, Default)]
pub struct UnlockFileRequest {
    pub header: RequestHeader,
    pub handle: ObjHandle,
    pub offset: FilePos,
    pub count: FilePos,
}

#[derive(Clone, Copy, Debug, PartialEq, Eq, Structural, Default)]
pub struct UnlockFileReply {
    pub header: ReplyHeader,
}

#[derive(Clone, Copy, Debug, PartialEq, Eq, Structural, Default)]
pub struct RecvSocketRequest {
    pub header: RequestHeader,
    pub oob: i32,
    pub _async: AsyncData,
    pub force_async: i32,
}

#[derive(Clone, Copy, Debug, PartialEq, Eq, Structural, Default)]
pub struct RecvSocketReply {
    pub header: ReplyHeader,
    pub wait: ObjHandle,
    pub options: u32,
    pub nonblocking: i32,
}

#[derive(Clone, Copy, Debug, PartialEq, Eq, Structural, Default)]
pub struct SendSocketRequest {
    pub header: RequestHeader,
    pub _async: AsyncData,
    pub force_async: i32,
}

#[derive(Clone, Copy, Debug, PartialEq, Eq, Structural, Default)]
pub struct SendSocketReply {
    pub header: ReplyHeader,
    pub wait: ObjHandle,
    pub options: u32,
    pub nonblocking: i32,
}

#[derive(Clone, Copy, Debug, PartialEq, Eq, Structural, Default)]
pub struct SocketGetEventsRequest {
    pub header: RequestHeader,
    pub handle: ObjHandle,
    pub event: ObjHandle,
}

#[derive(Clone, Copy, Debug, PartialEq, Eq, Structural, Default)]
pub struct SocketGetEventsReply {
    pub header: ReplyHeader,
    pub flags: u32,
}

#[derive(Clone, Copy, Debug, PartialEq, Eq, Structural, Default)]
pub struct SocketSendIcmpIdRequest {
    pub header: RequestHeader,
    pub handle: ObjHandle,
    pub icmp_id: u16,
    pub icmp_seq: u16,
}

#[derive(Clone, Copy, Debug, PartialEq, Eq, Structural, Default)]
pub struct SocketSendIcmpIdReply {
    pub header: ReplyHeader,
}

#[derive(Clone, Copy, Debug, PartialEq, Eq, Structural, Default)]
pub struct SocketGetIcmpIdRequest {
    pub header: RequestHeader,
    pub handle: ObjHandle,
    pub icmp_seq: u16,
}

#[derive(Clone, Copy, Debug, PartialEq, Eq, Structural, Default)]
pub struct SocketGetIcmpIdReply {
    pub header: ReplyHeader,
    pub icmp_id: u16,
}

#[derive(Clone, Copy, Debug, PartialEq, Eq, Structural, Default)]
pub struct GetNextConsoleRequestRequest {
    pub header: RequestHeader,
    pub handle: ObjHandle,
    pub signal: i32,
    pub read: i32,
    pub status: u32,
}

#[derive(Clone, Copy, Debug, PartialEq, Eq, Structural, Default)]
pub struct GetNextConsoleRequestReply {
    pub header: ReplyHeader,
    pub code: u32,
    pub output: u32,
    pub out_size: DataSize,
}

#[derive(Clone, Copy, Debug, PartialEq, Eq, Structural, Default)]
pub struct ReadDirectoryChangesRequest {
    pub header: RequestHeader,
    pub filter: u32,
    pub subtree: i32,
    pub want_data: i32,
    pub _async: AsyncData,
}

#[derive(Clone, Copy, Debug, PartialEq, Eq, Structural, Default)]
pub struct ReadDirectoryChangesReply {
    pub header: ReplyHeader,
}

#[derive(Clone, Copy, Debug, PartialEq, Eq, Structural, Default)]
pub struct ReadChangeRequest {
    pub header: RequestHeader,
    pub handle: ObjHandle,
}

#[derive(Clone, Copy, Debug, PartialEq, Eq, Structural, Default)]
pub struct ReadChangeReply {
    pub header: ReplyHeader,
}

#[derive(Clone, Copy, Debug, PartialEq, Eq, Structural, Default)]
pub struct CreateMappingRequest {
    pub header: RequestHeader,
    pub access: u32,
    pub flags: u32,
    pub file_access: u32,
    pub size: MemSize,
    pub file_handle: ObjHandle,
}

#[derive(Clone, Copy, Debug, PartialEq, Eq, Structural, Default)]
pub struct CreateMappingReply {
    pub header: ReplyHeader,
    pub handle: ObjHandle,
}

#[derive(Clone, Copy, Debug, PartialEq, Eq, Structural, Default)]
pub struct OpenMappingRequest {
    pub header: RequestHeader,
    pub access: u32,
    pub attributes: u32,
    pub rootdir: ObjHandle,
}

#[derive(Clone, Copy, Debug, PartialEq, Eq, Structural, Default)]
pub struct OpenMappingReply {
    pub header: ReplyHeader,
    pub handle: ObjHandle,
}

#[derive(Clone, Copy, Debug, PartialEq, Eq, Structural, Default)]
pub struct GetMappingInfoRequest {
    pub header: RequestHeader,
    pub handle: ObjHandle,
    pub access: u32,
}

#[derive(Clone, Copy, Debug, PartialEq, Eq, Structural, Default)]
pub struct GetMappingInfoReply {
    pub header: ReplyHeader,
    pub size: MemSize,
    pub flags: u32,
    pub shared_file: ObjHandle,
    pub total: DataSize,
}

#[derive(Clone, Copy, Debug, PartialEq, Eq, Structural, Default)]
pub struct GetImageMapAddressRequest {
    pub header: RequestHeader,
    pub handle: ObjHandle,
}

#[derive(Clone, Copy, Debug, PartialEq, Eq, Structural, Default)]
pub struct GetImageMapAddressReply {
    pub header: ReplyHeader,
    pub addr: ClientPtr,
}

#[derive(Clone, Copy, Debug, PartialEq, Eq, Structural, Default)]
pub struct MapViewRequest {
    pub header: RequestHeader,
    pub mapping: ObjHandle,
    pub access: u32,
    pub base: ClientPtr,
    pub size: MemSize,
    pub start: FilePos,
}

#[derive(Clone, Copy, Debug, PartialEq, Eq, Structural, Default)]
pub struct MapViewReply {
    pub header: ReplyHeader,
}

#[derive(Clone, Copy, Debug, PartialEq, Eq, Structural, Default)]
pub struct MapImageViewRequest {
    pub header: RequestHeader,
    pub mapping: ObjHandle,
    pub base: ClientPtr,
    pub size: MemSize,
    pub entry: u32,
    pub machine: u16,
}

#[derive(Clone, Copy, Debug, PartialEq, Eq, Structural, Default)]
pub struct MapImageViewReply {
    pub header: ReplyHeader,
}

#[derive(Clone, Copy, Debug, PartialEq, Eq, Structural, Default)]
pub struct MapBuiltinViewRequest {
    pub header: RequestHeader,
}

#[derive(Clone, Copy, Debug, PartialEq, Eq, Structural, Default)]
pub struct MapBuiltinViewReply {
    pub header: ReplyHeader,
}

#[derive(Clone, Copy, Debug, PartialEq, Eq, Structural, Default)]
pub struct GetImageViewInfoRequest {
    pub header: RequestHeader,
    pub process: ObjHandle,
    pub addr: ClientPtr,
}

#[derive(Clone, Copy, Debug, PartialEq, Eq, Structural, Default)]
pub struct GetImageViewInfoReply {
    pub header: ReplyHeader,
    pub base: ClientPtr,
    pub size: MemSize,
}

#[derive(Clone, Copy, Debug, PartialEq, Eq, Structural, Default)]
pub struct UnmapViewRequest {
    pub header: RequestHeader,
    pub base: ClientPtr,
}

#[derive(Clone, Copy, Debug, PartialEq, Eq, Structural, Default)]
pub struct UnmapViewReply {
    pub header: ReplyHeader,
}

#[derive(Clone, Copy, Debug, PartialEq, Eq, Structural, Default)]
pub struct GetMappingCommittedRangeRequest {
    pub header: RequestHeader,
    pub base: ClientPtr,
    pub offset: FilePos,
}

#[derive(Clone, Copy, Debug, PartialEq, Eq, Structural, Default)]
pub struct GetMappingCommittedRangeReply {
    pub header: ReplyHeader,
    pub size: MemSize,
    pub committed: i32,
}

#[derive(Clone, Copy, Debug, PartialEq, Eq, Structural, Default)]
pub struct AddMappingCommittedRangeRequest {
    pub header: RequestHeader,
    pub base: ClientPtr,
    pub offset: FilePos,
    pub size: MemSize,
}

#[derive(Clone, Copy, Debug, PartialEq, Eq, Structural, Default)]
pub struct AddMappingCommittedRangeReply {
    pub header: ReplyHeader,
}

#[derive(Clone, Copy, Debug, PartialEq, Eq, Structural, Default)]
pub struct IsSameMappingRequest {
    pub header: RequestHeader,
    pub base1: ClientPtr,
    pub base2: ClientPtr,
}

#[derive(Clone, Copy, Debug, PartialEq, Eq, Structural, Default)]
pub struct IsSameMappingReply {
    pub header: ReplyHeader,
}

#[derive(Clone, Copy, Debug, PartialEq, Eq, Structural, Default)]
pub struct GetMappingFilenameRequest {
    pub header: RequestHeader,
    pub process: ObjHandle,
    pub addr: ClientPtr,
}

#[derive(Clone, Copy, Debug, PartialEq, Eq, Structural, Default)]
pub struct GetMappingFilenameReply {
    pub header: ReplyHeader,
    pub len: DataSize,
}

#[derive(Clone, Copy, Debug, PartialEq, Eq, Structural, Default)]
pub struct ListProcessesRequest {
    pub header: RequestHeader,
}

#[derive(Clone, Copy, Debug, PartialEq, Eq, Structural, Default)]
pub struct ListProcessesReply {
    pub header: ReplyHeader,
    pub info_size: DataSize,
    pub process_count: i32,
    pub total_thread_count: i32,
    pub total_name_len: DataSize,
}

#[derive(Clone, Copy, Debug, PartialEq, Eq, Structural, Default)]
pub struct CreateDebugObjRequest {
    pub header: RequestHeader,
    pub access: u32,
    pub flags: u32,
}

#[derive(Clone, Copy, Debug, PartialEq, Eq, Structural, Default)]
pub struct CreateDebugObjReply {
    pub header: ReplyHeader,
    pub handle: ObjHandle,
}

#[derive(Clone, Copy, Debug, PartialEq, Eq, Structural, Default)]
pub struct WaitDebugEventRequest {
    pub header: RequestHeader,
    pub debug: ObjHandle,
}

#[derive(Clone, Copy, Debug, PartialEq, Eq, Structural, Default)]
pub struct WaitDebugEventReply {
    pub header: ReplyHeader,
    pub pid: ProcessId,
    pub tid: ThreadId,
}

#[derive(Clone, Copy, Debug, PartialEq, Eq, Structural, Default)]
pub struct QueueExceptionEventRequest {
    pub header: RequestHeader,
    pub first: i32,
    pub code: u32,
    pub flags: u32,
    pub record: ClientPtr,
    pub address: ClientPtr,
    pub len: DataSize,
}

#[derive(Clone, Copy, Debug, PartialEq, Eq, Structural, Default)]
pub struct QueueExceptionEventReply {
    pub header: ReplyHeader,
    pub handle: ObjHandle,
}

#[derive(Clone, Copy, Debug, PartialEq, Eq, Structural, Default)]
pub struct GetExceptionStatusRequest {
    pub header: RequestHeader,
    pub handle: ObjHandle,
}

#[derive(Clone, Copy, Debug, PartialEq, Eq, Structural, Default)]
pub struct GetExceptionStatusReply {
    pub header: ReplyHeader,
}

#[derive(Clone, Copy, Debug, PartialEq, Eq, Structural, Default)]
pub struct ContinueDebugEventRequest {
    pub header: RequestHeader,
    pub debug: ObjHandle,
    pub pid: ProcessId,
    pub tid: ThreadId,
    pub status: u32,
}

#[derive(Clone, Copy, Debug, PartialEq, Eq, Structural, Default)]
pub struct ContinueDebugEventReply {
    pub header: ReplyHeader,
}

#[derive(Clone, Copy, Debug, PartialEq, Eq, Structural, Default)]
pub struct DebugProcessRequest {
    pub header: RequestHeader,
    pub handle: ObjHandle,
    pub debug: ObjHandle,
    pub attach: i32,
}

#[derive(Clone, Copy, Debug, PartialEq, Eq, Structural, Default)]
pub struct DebugProcessReply {
    pub header: ReplyHeader,
}

#[derive(Clone, Copy, Debug, PartialEq, Eq, Structural, Default)]
pub struct SetDebugObjInfoRequest {
    pub header: RequestHeader,
    pub debug: ObjHandle,
    pub flags: u32,
}

#[derive(Clone, Copy, Debug, PartialEq, Eq, Structural, Default)]
pub struct SetDebugObjInfoReply {
    pub header: ReplyHeader,
}

#[derive(Clone, Copy, Debug, PartialEq, Eq, Structural, Default)]
pub struct ReadProcessMemoryRequest {
    pub header: RequestHeader,
    pub handle: ObjHandle,
    pub addr: ClientPtr,
}

#[derive(Clone, Copy, Debug, PartialEq, Eq, Structural, Default)]
pub struct ReadProcessMemoryReply {
    pub header: ReplyHeader,
}

#[derive(Clone, Copy, Debug, PartialEq, Eq, Structural, Default)]
pub struct WriteProcessMemoryRequest {
    pub header: RequestHeader,
    pub handle: ObjHandle,
    pub addr: ClientPtr,
}

#[derive(Clone, Copy, Debug, PartialEq, Eq, Structural, Default)]
pub struct WriteProcessMemoryReply {
    pub header: ReplyHeader,
}

#[derive(Clone, Copy, Debug, PartialEq, Eq, Structural, Default)]
pub struct CreateKeyRequest {
    pub header: RequestHeader,
    pub access: u32,
    pub options: u32,
}

#[derive(Clone, Copy, Debug, PartialEq, Eq, Structural, Default)]
pub struct CreateKeyReply {
    pub header: ReplyHeader,
    pub hkey: ObjHandle,
}

#[derive(Clone, Copy, Debug, PartialEq, Eq, Structural, Default)]
pub struct OpenKeyRequest {
    pub header: RequestHeader,
    pub parent: ObjHandle,
    pub access: u32,
    pub attributes: u32,
}

#[derive(Clone, Copy, Debug, PartialEq, Eq, Structural, Default)]
pub struct OpenKeyReply {
    pub header: ReplyHeader,
    pub hkey: ObjHandle,
}

#[derive(Clone, Copy, Debug, PartialEq, Eq, Structural, Default)]
pub struct DeleteKeyRequest {
    pub header: RequestHeader,
    pub hkey: ObjHandle,
}

#[derive(Clone, Copy, Debug, PartialEq, Eq, Structural, Default)]
pub struct DeleteKeyReply {
    pub header: ReplyHeader,
}

#[derive(Clone, Copy, Debug, PartialEq, Eq, Structural, Default)]
pub struct FlushKeyRequest {
    pub header: RequestHeader,
    pub hkey: ObjHandle,
}

#[derive(Clone, Copy, Debug, PartialEq, Eq, Structural, Default)]
pub struct FlushKeyReply {
    pub header: ReplyHeader,
}

#[derive(Clone, Copy, Debug, PartialEq, Eq, Structural, Default)]
pub struct EnumKeyRequest {
    pub header: RequestHeader,
    pub hkey: ObjHandle,
    pub index: i32,
    pub info_class: i32,
}

#[derive(Clone, Copy, Debug, PartialEq, Eq, Structural, Default)]
pub struct EnumKeyReply {
    pub header: ReplyHeader,
    pub subkeys: i32,
    pub max_subkey: i32,
    pub max_class: i32,
    pub values: i32,
    pub max_value: i32,
    pub max_data: i32,
    pub modif: Timeout,
    pub total: DataSize,
    pub namelen: DataSize,
}

#[derive(Clone, Copy, Debug, PartialEq, Eq, Structural, Default)]
pub struct SetKeyValueRequest {
    pub header: RequestHeader,
    pub hkey: ObjHandle,
    pub _type: i32,
    pub namelen: DataSize,
}

#[derive(Clone, Copy, Debug, PartialEq, Eq, Structural, Default)]
pub struct SetKeyValueReply {
    pub header: ReplyHeader,
}

#[derive(Clone, Copy, Debug, PartialEq, Eq, Structural, Default)]
pub struct GetKeyValueRequest {
    pub header: RequestHeader,
    pub hkey: ObjHandle,
}

#[derive(Clone, Copy, Debug, PartialEq, Eq, Structural, Default)]
pub struct GetKeyValueReply {
    pub header: ReplyHeader,
    pub _type: i32,
    pub total: DataSize,
}

#[derive(Clone, Copy, Debug, PartialEq, Eq, Structural, Default)]
pub struct EnumKeyValueRequest {
    pub header: RequestHeader,
    pub hkey: ObjHandle,
    pub index: i32,
    pub info_class: i32,
}

#[derive(Clone, Copy, Debug, PartialEq, Eq, Structural, Default)]
pub struct EnumKeyValueReply {
    pub header: ReplyHeader,
    pub _type: i32,
    pub total: DataSize,
    pub namelen: DataSize,
}

#[derive(Clone, Copy, Debug, PartialEq, Eq, Structural, Default)]
pub struct DeleteKeyValueRequest {
    pub header: RequestHeader,
    pub hkey: ObjHandle,
}

#[derive(Clone, Copy, Debug, PartialEq, Eq, Structural, Default)]
pub struct DeleteKeyValueReply {
    pub header: ReplyHeader,
}

#[derive(Clone, Copy, Debug, PartialEq, Eq, Structural, Default)]
pub struct LoadRegistryRequest {
    pub header: RequestHeader,
    pub file: ObjHandle,
}

#[derive(Clone, Copy, Debug, PartialEq, Eq, Structural, Default)]
pub struct LoadRegistryReply {
    pub header: ReplyHeader,
}

#[derive(Clone, Copy, Debug, PartialEq, Eq, Structural, Default)]
pub struct UnloadRegistryRequest {
    pub header: RequestHeader,
    pub parent: ObjHandle,
    pub attributes: u32,
}

#[derive(Clone, Copy, Debug, PartialEq, Eq, Structural, Default)]
pub struct UnloadRegistryReply {
    pub header: ReplyHeader,
}

#[derive(Clone, Copy, Debug, PartialEq, Eq, Structural, Default)]
pub struct SaveRegistryRequest {
    pub header: RequestHeader,
    pub hkey: ObjHandle,
    pub file: ObjHandle,
}

#[derive(Clone, Copy, Debug, PartialEq, Eq, Structural, Default)]
pub struct SaveRegistryReply {
    pub header: ReplyHeader,
}

#[derive(Clone, Copy, Debug, PartialEq, Eq, Structural, Default)]
pub struct SetRegistryNotificationRequest {
    pub header: RequestHeader,
    pub hkey: ObjHandle,
    pub event: ObjHandle,
    pub subtree: i32,
    pub filter: u32,
}

#[derive(Clone, Copy, Debug, PartialEq, Eq, Structural, Default)]
pub struct SetRegistryNotificationReply {
    pub header: ReplyHeader,
}

#[derive(Clone, Copy, Debug, PartialEq, Eq, Structural, Default)]
pub struct RenameKeyRequest {
    pub header: RequestHeader,
    pub hkey: ObjHandle,
}

#[derive(Clone, Copy, Debug, PartialEq, Eq, Structural, Default)]
pub struct RenameKeyReply {
    pub header: ReplyHeader,
}

#[derive(Clone, Copy, Debug, PartialEq, Eq, Structural, Default)]
pub struct CreateTimerRequest {
    pub header: RequestHeader,
    pub access: u32,
    pub manual: i32,
}

#[derive(Clone, Copy, Debug, PartialEq, Eq, Structural, Default)]
pub struct CreateTimerReply {
    pub header: ReplyHeader,
    pub handle: ObjHandle,
}

#[derive(Clone, Copy, Debug, PartialEq, Eq, Structural, Default)]
pub struct OpenTimerRequest {
    pub header: RequestHeader,
    pub access: u32,
    pub attributes: u32,
    pub rootdir: ObjHandle,
}

#[derive(Clone, Copy, Debug, PartialEq, Eq, Structural, Default)]
pub struct OpenTimerReply {
    pub header: ReplyHeader,
    pub handle: ObjHandle,
}

#[derive(Clone, Copy, Debug, PartialEq, Eq, Structural, Default)]
pub struct SetTimerRequest {
    pub header: RequestHeader,
    pub handle: ObjHandle,
    pub expire: Timeout,
    pub callback: ClientPtr,
    pub arg: ClientPtr,
    pub period: i32,
}

#[derive(Clone, Copy, Debug, PartialEq, Eq, Structural, Default)]
pub struct SetTimerReply {
    pub header: ReplyHeader,
    pub signaled: i32,
}

#[derive(Clone, Copy, Debug, PartialEq, Eq, Structural, Default)]
pub struct CancelTimerRequest {
    pub header: RequestHeader,
    pub handle: ObjHandle,
}

#[derive(Clone, Copy, Debug, PartialEq, Eq, Structural, Default)]
pub struct CancelTimerReply {
    pub header: ReplyHeader,
    pub signaled: i32,
}

#[derive(Clone, Copy, Debug, PartialEq, Eq, Structural, Default)]
pub struct GetTimerInfoRequest {
    pub header: RequestHeader,
    pub handle: ObjHandle,
}

#[derive(Clone, Copy, Debug, PartialEq, Eq, Structural, Default)]
pub struct GetTimerInfoReply {
    pub header: ReplyHeader,
    pub when: Timeout,
    pub signaled: i32,
}

#[derive(Clone, Copy, Debug, PartialEq, Eq, Structural, Default)]
pub struct GetThreadContextRequest {
    pub header: RequestHeader,
    pub handle: ObjHandle,
    pub context: ObjHandle,
    pub flags: u32,
    pub native_flags: u32,
    pub machine: u16,
}

#[derive(Clone, Copy, Debug, PartialEq, Eq, Structural, Default)]
pub struct GetThreadContextReply {
    pub header: ReplyHeader,
    pub _self: i32,
    pub handle: ObjHandle,
}

#[derive(Clone, Copy, Debug, PartialEq, Eq, Structural, Default)]
pub struct SetThreadContextRequest {
    pub header: RequestHeader,
    pub handle: ObjHandle,
    pub native_flags: u32,
}

#[derive(Clone, Copy, Debug, PartialEq, Eq, Structural, Default)]
pub struct SetThreadContextReply {
    pub header: ReplyHeader,
    pub _self: i32,
}

#[derive(Clone, Copy, Debug, PartialEq, Eq, Structural, Default)]
pub struct GetSelectorEntryRequest {
    pub header: RequestHeader,
    pub handle: ObjHandle,
    pub entry: i32,
}

#[derive(Clone, Copy, Debug, PartialEq, Eq, Structural, Default)]
pub struct GetSelectorEntryReply {
    pub header: ReplyHeader,
    pub base: u32,
    pub limit: u32,
    pub flags: u8,
}

#[derive(Clone, Copy, Debug, PartialEq, Eq, Structural, Default)]
pub struct AddAtomRequest {
    pub header: RequestHeader,
}

#[derive(Clone, Copy, Debug, PartialEq, Eq, Structural, Default)]
pub struct AddAtomReply {
    pub header: ReplyHeader,
    pub atom: Atom,
}

#[derive(Clone, Copy, Debug, PartialEq, Eq, Structural, Default)]
pub struct DeleteAtomRequest {
    pub header: RequestHeader,
    pub atom: Atom,
}

#[derive(Clone, Copy, Debug, PartialEq, Eq, Structural, Default)]
pub struct DeleteAtomReply {
    pub header: ReplyHeader,
}

#[derive(Clone, Copy, Debug, PartialEq, Eq, Structural, Default)]
pub struct FindAtomRequest {
    pub header: RequestHeader,
}

#[derive(Clone, Copy, Debug, PartialEq, Eq, Structural, Default)]
pub struct FindAtomReply {
    pub header: ReplyHeader,
    pub atom: Atom,
}

#[derive(Clone, Copy, Debug, PartialEq, Eq, Structural, Default)]
pub struct GetAtomInformationRequest {
    pub header: RequestHeader,
    pub atom: Atom,
}

#[derive(Clone, Copy, Debug, PartialEq, Eq, Structural, Default)]
pub struct GetAtomInformationReply {
    pub header: ReplyHeader,
    pub count: i32,
    pub pinned: i32,
    pub total: DataSize,
}

#[derive(Clone, Copy, Debug, PartialEq, Eq, Structural, Default)]
pub struct GetMsgQueueRequest {
    pub header: RequestHeader,
}

#[derive(Clone, Copy, Debug, PartialEq, Eq, Structural, Default)]
pub struct GetMsgQueueReply {
    pub header: ReplyHeader,
    pub handle: ObjHandle,
}

#[derive(Clone, Copy, Debug, PartialEq, Eq, Structural, Default)]
pub struct SetQueueFdRequest {
    pub header: RequestHeader,
    pub handle: ObjHandle,
}

#[derive(Clone, Copy, Debug, PartialEq, Eq, Structural, Default)]
pub struct SetQueueFdReply {
    pub header: ReplyHeader,
}

#[derive(Clone, Copy, Debug, PartialEq, Eq, Structural, Default)]
pub struct SetQueueMaskRequest {
    pub header: RequestHeader,
    pub wake_mask: u32,
    pub changed_mask: u32,
    pub skip_wait: i32,
}

#[derive(Clone, Copy, Debug, PartialEq, Eq, Structural, Default)]
pub struct SetQueueMaskReply {
    pub header: ReplyHeader,
    pub wake_bits: u32,
    pub changed_bits: u32,
}

#[derive(Clone, Copy, Debug, PartialEq, Eq, Structural, Default)]
pub struct GetQueueStatusRequest {
    pub header: RequestHeader,
    pub clear_bits: u32,
}

#[derive(Clone, Copy, Debug, PartialEq, Eq, Structural, Default)]
pub struct GetQueueStatusReply {
    pub header: ReplyHeader,
    pub wake_bits: u32,
    pub changed_bits: u32,
}

#[derive(Clone, Copy, Debug, PartialEq, Eq, Structural, Default)]
pub struct GetProcessIdleEventRequest {
    pub header: RequestHeader,
    pub handle: ObjHandle,
}

#[derive(Clone, Copy, Debug, PartialEq, Eq, Structural, Default)]
pub struct GetProcessIdleEventReply {
    pub header: ReplyHeader,
    pub event: ObjHandle,
}

#[derive(Clone, Copy, Debug, PartialEq, Eq, Structural, Default)]
pub struct SendMessageRequest {
    pub header: RequestHeader,
    pub id: ThreadId,
    pub _type: i32,
    pub flags: i32,
    pub win: UserHandle,
    pub msg: u32,
    pub wparam: LParam,
    pub lparam: LParam,
    pub timeout: Timeout,
}

#[derive(Clone, Copy, Debug, PartialEq, Eq, Structural, Default)]
pub struct SendMessageReply {
    pub header: ReplyHeader,
}

#[derive(Clone, Copy, Debug, PartialEq, Eq, Structural, Default)]
pub struct PostQuitMessageRequest {
    pub header: RequestHeader,
    pub exit_code: i32,
}

#[derive(Clone, Copy, Debug, PartialEq, Eq, Structural, Default)]
pub struct PostQuitMessageReply {
    pub header: ReplyHeader,
}

#[derive(Clone, Copy, Debug, PartialEq, Eq, Structural, Default)]
pub struct SendHardwareMessageRequest {
    pub header: RequestHeader,
    pub win: UserHandle,
    pub input: HardwareInput,
    pub flags: u32,
}

#[derive(Clone, Copy, Debug, PartialEq, Eq, Structural, Default)]
pub struct SendHardwareMessageReply {
    pub header: ReplyHeader,
    pub wait: i32,
    pub prev_x: i32,
    pub prev_y: i32,
    pub new_x: i32,
    pub new_y: i32,
}

#[derive(Clone, Copy, Debug, PartialEq, Eq, Structural, Default)]
pub struct GetMessageRequest {
    pub header: RequestHeader,
    pub flags: u32,
    pub get_win: UserHandle,
    pub get_first: u32,
    pub get_last: u32,
    pub hw_id: u32,
    pub wake_mask: u32,
    pub changed_mask: u32,
}

#[derive(Clone, Copy, Debug, PartialEq, Eq, Structural, Default)]
pub struct GetMessageReply {
    pub header: ReplyHeader,
    pub win: UserHandle,
    pub msg: u32,
    pub wparam: LParam,
    pub lparam: LParam,
    pub _type: i32,
    pub x: i32,
    pub y: i32,
    pub time: u32,
    pub active_hooks: u32,
    pub total: DataSize,
}

#[derive(Clone, Copy, Debug, PartialEq, Eq, Structural, Default)]
pub struct ReplyMessageRequest {
    pub header: RequestHeader,
    pub remove: i32,
    pub result: LParam,
}

#[derive(Clone, Copy, Debug, PartialEq, Eq, Structural, Default)]
pub struct ReplyMessageReply {
    pub header: ReplyHeader,
}

#[derive(Clone, Copy, Debug, PartialEq, Eq, Structural, Default)]
pub struct AcceptHardwareMessageRequest {
    pub header: RequestHeader,
    pub hw_id: u32,
}

#[derive(Clone, Copy, Debug, PartialEq, Eq, Structural, Default)]
pub struct AcceptHardwareMessageReply {
    pub header: ReplyHeader,
}

#[derive(Clone, Copy, Debug, PartialEq, Eq, Structural, Default)]
pub struct GetMessageReplyRequest {
    pub header: RequestHeader,
    pub cancel: i32,
}

#[derive(Clone, Copy, Debug, PartialEq, Eq, Structural, Default)]
pub struct GetMessageReplyReply {
    pub header: ReplyHeader,
    pub result: LParam,
}

#[derive(Clone, Copy, Debug, PartialEq, Eq, Structural, Default)]
pub struct SetWinTimerRequest {
    pub header: RequestHeader,
    pub win: UserHandle,
    pub msg: u32,
    pub rate: u32,
    pub id: LParam,
    pub lparam: LParam,
}

#[derive(Clone, Copy, Debug, PartialEq, Eq, Structural, Default)]
pub struct SetWinTimerReply {
    pub header: ReplyHeader,
    pub id: LParam,
}

#[derive(Clone, Copy, Debug, PartialEq, Eq, Structural, Default)]
pub struct KillWinTimerRequest {
    pub header: RequestHeader,
    pub win: UserHandle,
    pub id: LParam,
    pub msg: u32,
}

#[derive(Clone, Copy, Debug, PartialEq, Eq, Structural, Default)]
pub struct KillWinTimerReply {
    pub header: ReplyHeader,
}

#[derive(Clone, Copy, Debug, PartialEq, Eq, Structural, Default)]
pub struct IsWindowHungRequest {
    pub header: RequestHeader,
    pub win: UserHandle,
}

#[derive(Clone, Copy, Debug, PartialEq, Eq, Structural, Default)]
pub struct IsWindowHungReply {
    pub header: ReplyHeader,
    pub is_hung: i32,
}

#[derive(Clone, Copy, Debug, PartialEq, Eq, Structural, Default)]
pub struct GetSerialInfoRequest {
    pub header: RequestHeader,
    pub handle: ObjHandle,
    pub flags: i32,
}

#[derive(Clone, Copy, Debug, PartialEq, Eq, Structural, Default)]
pub struct GetSerialInfoReply {
    pub header: ReplyHeader,
    pub eventmask: u32,
    pub cookie: u32,
    pub pending_write: u32,
}

#[derive(Clone, Copy, Debug, PartialEq, Eq, Structural, Default)]
pub struct SetSerialInfoRequest {
    pub header: RequestHeader,
    pub handle: ObjHandle,
    pub flags: i32,
}

#[derive(Clone, Copy, Debug, PartialEq, Eq, Structural, Default)]
pub struct SetSerialInfoReply {
    pub header: ReplyHeader,
}

#[derive(Clone, Copy, Debug, PartialEq, Eq, Structural, Default)]
pub struct CancelSyncRequest {
    pub header: RequestHeader,
    pub handle: ObjHandle,
    pub iosb: ClientPtr,
}

#[derive(Clone, Copy, Debug, PartialEq, Eq, Structural, Default)]
pub struct CancelSyncReply {
    pub header: ReplyHeader,
}

#[derive(Clone, Copy, Debug, PartialEq, Eq, Structural, Default)]
pub struct RegisterAsyncRequest {
    pub header: RequestHeader,
    pub _type: i32,
    pub _async: AsyncData,
    pub count: i32,
}

#[derive(Clone, Copy, Debug, PartialEq, Eq, Structural, Default)]
pub struct RegisterAsyncReply {
    pub header: ReplyHeader,
}

#[derive(Clone, Copy, Debug, PartialEq, Eq, Structural, Default)]
pub struct CancelAsyncRequest {
    pub header: RequestHeader,
    pub handle: ObjHandle,
    pub iosb: ClientPtr,
    pub only_thread: i32,
}

#[derive(Clone, Copy, Debug, PartialEq, Eq, Structural, Default)]
pub struct CancelAsyncReply {
    pub header: ReplyHeader,
}

#[derive(Clone, Copy, Debug, PartialEq, Eq, Structural, Default)]
pub struct GetAsyncResultRequest {
    pub header: RequestHeader,
    pub user_arg: ClientPtr,
}

#[derive(Clone, Copy, Debug, PartialEq, Eq, Structural, Default)]
pub struct GetAsyncResultReply {
    pub header: ReplyHeader,
}

#[derive(Clone, Copy, Debug, PartialEq, Eq, Structural, Default)]
pub struct SetAsyncDirectResultRequest {
    pub header: RequestHeader,
    pub handle: ObjHandle,
    pub information: ApcParam,
    pub status: u32,
    pub mark_pending: i32,
}

#[derive(Clone, Copy, Debug, PartialEq, Eq, Structural, Default)]
pub struct SetAsyncDirectResultReply {
    pub header: ReplyHeader,
    pub handle: ObjHandle,
}

#[derive(Clone, Copy, Debug, PartialEq, Eq, Structural, Default)]
pub struct ReadRequest {
    pub header: RequestHeader,
    pub _async: AsyncData,
    pub pos: FilePos,
}

#[derive(Clone, Copy, Debug, PartialEq, Eq, Structural, Default)]
pub struct ReadReply {
    pub header: ReplyHeader,
    pub wait: ObjHandle,
    pub options: u32,
}

#[derive(Clone, Copy, Debug, PartialEq, Eq, Structural, Default)]
pub struct WriteRequest {
    pub header: RequestHeader,
    pub _async: AsyncData,
    pub pos: FilePos,
}

#[derive(Clone, Copy, Debug, PartialEq, Eq, Structural, Default)]
pub struct WriteReply {
    pub header: ReplyHeader,
    pub wait: ObjHandle,
    pub options: u32,
    pub size: DataSize,
}

#[derive(Clone, Copy, Debug, PartialEq, Eq, Structural, Default)]
pub struct IoctlRequest {
    pub header: RequestHeader,
    pub code: IoctlCode,
    pub _async: AsyncData,
}

#[derive(Clone, Copy, Debug, PartialEq, Eq, Structural, Default)]
pub struct IoctlReply {
    pub header: ReplyHeader,
    pub wait: ObjHandle,
    pub options: u32,
}

#[derive(Clone, Copy, Debug, PartialEq, Eq, Structural, Default)]
pub struct SetIrpResultRequest {
    pub header: RequestHeader,
    pub handle: ObjHandle,
    pub status: u32,
    pub size: DataSize,
}

#[derive(Clone, Copy, Debug, PartialEq, Eq, Structural, Default)]
pub struct SetIrpResultReply {
    pub header: ReplyHeader,
}

#[derive(Clone, Copy, Debug, PartialEq, Eq, Structural, Default)]
pub struct CreateNamedPipeRequest {
    pub header: RequestHeader,
    pub access: u32,
    pub options: u32,
    pub sharing: u32,
    pub disposition: u32,
    pub maxinstances: u32,
    pub outsize: u32,
    pub insize: u32,
    pub timeout: Timeout,
    pub flags: u32,
}

#[derive(Clone, Copy, Debug, PartialEq, Eq, Structural, Default)]
pub struct CreateNamedPipeReply {
    pub header: ReplyHeader,
    pub handle: ObjHandle,
    pub created: i32,
}

#[derive(Clone, Copy, Debug, PartialEq, Eq, Structural, Default)]
pub struct SetNamedPipeInfoRequest {
    pub header: RequestHeader,
    pub handle: ObjHandle,
    pub flags: u32,
}

#[derive(Clone, Copy, Debug, PartialEq, Eq, Structural, Default)]
pub struct SetNamedPipeInfoReply {
    pub header: ReplyHeader,
}

#[derive(Clone, Copy, Debug, PartialEq, Eq, Structural, Default)]
pub struct CreateWindowRequest {
    pub header: RequestHeader,
    pub parent: UserHandle,
    pub owner: UserHandle,
    pub atom: Atom,
    pub instance: ModHandle,
    pub dpi: i32,
    pub awareness: i32,
    pub style: u32,
    pub ex_style: u32,
}

#[derive(Clone, Copy, Debug, PartialEq, Eq, Structural, Default)]
pub struct CreateWindowReply {
    pub header: ReplyHeader,
    pub handle: UserHandle,
    pub parent: UserHandle,
    pub owner: UserHandle,
    pub extra: i32,
    pub class_ptr: ClientPtr,
    pub dpi: i32,
    pub awareness: i32,
}

#[derive(Clone, Copy, Debug, PartialEq, Eq, Structural, Default)]
pub struct DestroyWindowRequest {
    pub header: RequestHeader,
    pub handle: UserHandle,
}

#[derive(Clone, Copy, Debug, PartialEq, Eq, Structural, Default)]
pub struct DestroyWindowReply {
    pub header: ReplyHeader,
}

#[derive(Clone, Copy, Debug, PartialEq, Eq, Structural, Default)]
pub struct GetDesktopWindowRequest {
    pub header: RequestHeader,
    pub force: i32,
}

#[derive(Clone, Copy, Debug, PartialEq, Eq, Structural, Default)]
pub struct GetDesktopWindowReply {
    pub header: ReplyHeader,
    pub top_window: UserHandle,
    pub msg_window: UserHandle,
}

#[derive(Clone, Copy, Debug, PartialEq, Eq, Structural, Default)]
pub struct SetWindowOwnerRequest {
    pub header: RequestHeader,
    pub handle: UserHandle,
    pub owner: UserHandle,
}

#[derive(Clone, Copy, Debug, PartialEq, Eq, Structural, Default)]
pub struct SetWindowOwnerReply {
    pub header: ReplyHeader,
    pub full_owner: UserHandle,
    pub prev_owner: UserHandle,
}

#[derive(Clone, Copy, Debug, PartialEq, Eq, Structural, Default)]
pub struct GetWindowInfoRequest {
    pub header: RequestHeader,
    pub handle: UserHandle,
}

#[derive(Clone, Copy, Debug, PartialEq, Eq, Structural, Default)]
pub struct GetWindowInfoReply {
    pub header: ReplyHeader,
    pub full_handle: UserHandle,
    pub last_active: UserHandle,
    pub pid: ProcessId,
    pub tid: ThreadId,
    pub atom: Atom,
    pub is_unicode: i32,
    pub dpi: i32,
    pub awareness: i32,
}

#[derive(Clone, Copy, Debug, PartialEq, Eq, Structural, Default)]
pub struct SetWindowInfoRequest {
    pub header: RequestHeader,
    pub flags: u16,
    pub is_unicode: i16,
    pub handle: UserHandle,
    pub style: u32,
    pub ex_style: u32,
    pub extra_size: DataSize,
    pub instance: ModHandle,
    pub user_data: LParam,
    pub extra_value: LParam,
    pub extra_offset: i32,
}

#[derive(Clone, Copy, Debug, PartialEq, Eq, Structural, Default)]
pub struct SetWindowInfoReply {
    pub header: ReplyHeader,
    pub old_style: u32,
    pub old_ex_style: u32,
    pub old_instance: ModHandle,
    pub old_user_data: LParam,
    pub old_extra_value: LParam,
    pub old_id: LParam,
}

#[derive(Clone, Copy, Debug, PartialEq, Eq, Structural, Default)]
pub struct SetParentRequest {
    pub header: RequestHeader,
    pub handle: UserHandle,
    pub parent: UserHandle,
}

#[derive(Clone, Copy, Debug, PartialEq, Eq, Structural, Default)]
pub struct SetParentReply {
    pub header: ReplyHeader,
    pub old_parent: UserHandle,
    pub full_parent: UserHandle,
    pub dpi: i32,
    pub awareness: i32,
}

#[derive(Clone, Copy, Debug, PartialEq, Eq, Structural, Default)]
pub struct GetWindowParentsRequest {
    pub header: RequestHeader,
    pub handle: UserHandle,
}

#[derive(Clone, Copy, Debug, PartialEq, Eq, Structural, Default)]
pub struct GetWindowParentsReply {
    pub header: ReplyHeader,
    pub count: i32,
}

#[derive(Clone, Copy, Debug, PartialEq, Eq, Structural, Default)]
pub struct GetWindowChildrenRequest {
    pub header: RequestHeader,
    pub desktop: ObjHandle,
    pub parent: UserHandle,
    pub atom: Atom,
    pub tid: ThreadId,
}

#[derive(Clone, Copy, Debug, PartialEq, Eq, Structural, Default)]
pub struct GetWindowChildrenReply {
    pub header: ReplyHeader,
    pub count: i32,
}

#[derive(Clone, Copy, Debug, PartialEq, Eq, Structural, Default)]
pub struct GetWindowChildrenFromPointRequest {
    pub header: RequestHeader,
    pub parent: UserHandle,
    pub x: i32,
    pub y: i32,
    pub dpi: i32,
}

#[derive(Clone, Copy, Debug, PartialEq, Eq, Structural, Default)]
pub struct GetWindowChildrenFromPointReply {
    pub header: ReplyHeader,
    pub count: i32,
}

#[derive(Clone, Copy, Debug, PartialEq, Eq, Structural, Default)]
pub struct GetWindowTreeRequest {
    pub header: RequestHeader,
    pub handle: UserHandle,
}

#[derive(Clone, Copy, Debug, PartialEq, Eq, Structural, Default)]
pub struct GetWindowTreeReply {
    pub header: ReplyHeader,
    pub parent: UserHandle,
    pub owner: UserHandle,
    pub next_sibling: UserHandle,
    pub prev_sibling: UserHandle,
    pub first_sibling: UserHandle,
    pub last_sibling: UserHandle,
    pub first_child: UserHandle,
    pub last_child: UserHandle,
}

#[derive(Clone, Copy, Debug, PartialEq, Eq, Structural, Default)]
pub struct SetWindowPosRequest {
    pub header: RequestHeader,
    pub swp_flags: u16,
    pub paint_flags: u16,
    pub handle: UserHandle,
    pub previous: UserHandle,
    pub window: Rect,
    pub client: Rect,
}

#[derive(Clone, Copy, Debug, PartialEq, Eq, Structural, Default)]
pub struct SetWindowPosReply {
    pub header: ReplyHeader,
    pub new_style: u32,
    pub new_ex_style: u32,
    pub surface_win: UserHandle,
    pub needs_update: i32,
}

#[derive(Clone, Copy, Debug, PartialEq, Eq, Structural, Default)]
pub struct GetWindowRectanglesRequest {
    pub header: RequestHeader,
    pub handle: UserHandle,
    pub relative: i32,
    pub dpi: i32,
}

#[derive(Clone, Copy, Debug, PartialEq, Eq, Structural, Default)]
pub struct GetWindowRectanglesReply {
    pub header: ReplyHeader,
    pub window: Rect,
    pub client: Rect,
}

#[derive(Clone, Copy, Debug, PartialEq, Eq, Structural, Default)]
pub struct GetWindowTextRequest {
    pub header: RequestHeader,
    pub handle: UserHandle,
}

#[derive(Clone, Copy, Debug, PartialEq, Eq, Structural, Default)]
pub struct GetWindowTextReply {
    pub header: ReplyHeader,
    pub length: DataSize,
}

#[derive(Clone, Copy, Debug, PartialEq, Eq, Structural, Default)]
pub struct SetWindowTextRequest {
    pub header: RequestHeader,
    pub handle: UserHandle,
}

#[derive(Clone, Copy, Debug, PartialEq, Eq, Structural, Default)]
pub struct SetWindowTextReply {
    pub header: ReplyHeader,
}

#[derive(Clone, Copy, Debug, PartialEq, Eq, Structural, Default)]
pub struct GetWindowsOffsetRequest {
    pub header: RequestHeader,
    pub from: UserHandle,
    pub to: UserHandle,
    pub dpi: i32,
}

#[derive(Clone, Copy, Debug, PartialEq, Eq, Structural, Default)]
pub struct GetWindowsOffsetReply {
    pub header: ReplyHeader,
    pub x: i32,
    pub y: i32,
    pub mirror: i32,
}

#[derive(Clone, Copy, Debug, PartialEq, Eq, Structural, Default)]
pub struct GetVisibleRegionRequest {
    pub header: RequestHeader,
    pub window: UserHandle,
    pub flags: u32,
}

#[derive(Clone, Copy, Debug, PartialEq, Eq, Structural, Default)]
pub struct GetVisibleRegionReply {
    pub header: ReplyHeader,
    pub top_win: UserHandle,
    pub top_rect: Rect,
    pub win_rect: Rect,
    pub paint_flags: u32,
    pub total_size: DataSize,
}

#[derive(Clone, Copy, Debug, PartialEq, Eq, Structural, Default)]
pub struct GetSurfaceRegionRequest {
    pub header: RequestHeader,
    pub window: UserHandle,
}

#[derive(Clone, Copy, Debug, PartialEq, Eq, Structural, Default)]
pub struct GetSurfaceRegionReply {
    pub header: ReplyHeader,
    pub visible_rect: Rect,
    pub total_size: DataSize,
}

#[derive(Clone, Copy, Debug, PartialEq, Eq, Structural, Default)]
pub struct GetWindowRegionRequest {
    pub header: RequestHeader,
    pub window: UserHandle,
}

#[derive(Clone, Copy, Debug, PartialEq, Eq, Structural, Default)]
pub struct GetWindowRegionReply {
    pub header: ReplyHeader,
    pub total_size: DataSize,
}

#[derive(Clone, Copy, Debug, PartialEq, Eq, Structural, Default)]
pub struct SetWindowRegionRequest {
    pub header: RequestHeader,
    pub window: UserHandle,
    pub redraw: i32,
}

#[derive(Clone, Copy, Debug, PartialEq, Eq, Structural, Default)]
pub struct SetWindowRegionReply {
    pub header: ReplyHeader,
}

#[derive(Clone, Copy, Debug, PartialEq, Eq, Structural, Default)]
pub struct GetUpdateRegionRequest {
    pub header: RequestHeader,
    pub window: UserHandle,
    pub from_child: UserHandle,
    pub flags: u32,
}

#[derive(Clone, Copy, Debug, PartialEq, Eq, Structural, Default)]
pub struct GetUpdateRegionReply {
    pub header: ReplyHeader,
    pub child: UserHandle,
    pub flags: u32,
    pub total_size: DataSize,
}

#[derive(Clone, Copy, Debug, PartialEq, Eq, Structural, Default)]
pub struct UpdateWindowZorderRequest {
    pub header: RequestHeader,
    pub window: UserHandle,
    pub rect: Rect,
}

#[derive(Clone, Copy, Debug, PartialEq, Eq, Structural, Default)]
pub struct UpdateWindowZorderReply {
    pub header: ReplyHeader,
}

#[derive(Clone, Copy, Debug, PartialEq, Eq, Structural, Default)]
pub struct RedrawWindowRequest {
    pub header: RequestHeader,
    pub window: UserHandle,
    pub flags: u32,
}

#[derive(Clone, Copy, Debug, PartialEq, Eq, Structural, Default)]
pub struct RedrawWindowReply {
    pub header: ReplyHeader,
}

#[derive(Clone, Copy, Debug, PartialEq, Eq, Structural, Default)]
pub struct SetWindowPropertyRequest {
    pub header: RequestHeader,
    pub window: UserHandle,
    pub data: LParam,
    pub atom: Atom,
}

#[derive(Clone, Copy, Debug, PartialEq, Eq, Structural, Default)]
pub struct SetWindowPropertyReply {
    pub header: ReplyHeader,
}

#[derive(Clone, Copy, Debug, PartialEq, Eq, Structural, Default)]
pub struct RemoveWindowPropertyRequest {
    pub header: RequestHeader,
    pub window: UserHandle,
    pub atom: Atom,
}

#[derive(Clone, Copy, Debug, PartialEq, Eq, Structural, Default)]
pub struct RemoveWindowPropertyReply {
    pub header: ReplyHeader,
    pub data: LParam,
}

#[derive(Clone, Copy, Debug, PartialEq, Eq, Structural, Default)]
pub struct GetWindowPropertyRequest {
    pub header: RequestHeader,
    pub window: UserHandle,
    pub atom: Atom,
}

#[derive(Clone, Copy, Debug, PartialEq, Eq, Structural, Default)]
pub struct GetWindowPropertyReply {
    pub header: ReplyHeader,
    pub data: LParam,
}

#[derive(Clone, Copy, Debug, PartialEq, Eq, Structural, Default)]
pub struct GetWindowPropertiesRequest {
    pub header: RequestHeader,
    pub window: UserHandle,
}

#[derive(Clone, Copy, Debug, PartialEq, Eq, Structural, Default)]
pub struct GetWindowPropertiesReply {
    pub header: ReplyHeader,
    pub total: i32,
}

#[derive(Clone, Copy, Debug, PartialEq, Eq, Structural, Default)]
pub struct CreateWinstationRequest {
    pub header: RequestHeader,
    pub flags: u32,
    pub access: u32,
    pub attributes: u32,
    pub rootdir: ObjHandle,
}

#[derive(Clone, Copy, Debug, PartialEq, Eq, Structural, Default)]
pub struct CreateWinstationReply {
    pub header: ReplyHeader,
    pub handle: ObjHandle,
}

#[derive(Clone, Copy, Debug, PartialEq, Eq, Structural, Default)]
pub struct OpenWinstationRequest {
    pub header: RequestHeader,
    pub access: u32,
    pub attributes: u32,
    pub rootdir: ObjHandle,
}

#[derive(Clone, Copy, Debug, PartialEq, Eq, Structural, Default)]
pub struct OpenWinstationReply {
    pub header: ReplyHeader,
    pub handle: ObjHandle,
}

#[derive(Clone, Copy, Debug, PartialEq, Eq, Structural, Default)]
pub struct CloseWinstationRequest {
    pub header: RequestHeader,
    pub handle: ObjHandle,
}

#[derive(Clone, Copy, Debug, PartialEq, Eq, Structural, Default)]
pub struct CloseWinstationReply {
    pub header: ReplyHeader,
}

#[derive(Clone, Copy, Debug, PartialEq, Eq, Structural, Default)]
pub struct GetProcessWinstationRequest {
    pub header: RequestHeader,
}

#[derive(Clone, Copy, Debug, PartialEq, Eq, Structural, Default)]
pub struct GetProcessWinstationReply {
    pub header: ReplyHeader,
    pub handle: ObjHandle,
}

#[derive(Clone, Copy, Debug, PartialEq, Eq, Structural, Default)]
pub struct SetProcessWinstationRequest {
    pub header: RequestHeader,
    pub handle: ObjHandle,
}

#[derive(Clone, Copy, Debug, PartialEq, Eq, Structural, Default)]
pub struct SetProcessWinstationReply {
    pub header: ReplyHeader,
}

#[derive(Clone, Copy, Debug, PartialEq, Eq, Structural, Default)]
pub struct EnumWinstationRequest {
    pub header: RequestHeader,
    pub index: u32,
}

#[derive(Clone, Copy, Debug, PartialEq, Eq, Structural, Default)]
pub struct EnumWinstationReply {
    pub header: ReplyHeader,
    pub next: u32,
}

#[derive(Clone, Copy, Debug, PartialEq, Eq, Structural, Default)]
pub struct CreateDesktopRequest {
    pub header: RequestHeader,
    pub flags: u32,
    pub access: u32,
    pub attributes: u32,
}

#[derive(Clone, Copy, Debug, PartialEq, Eq, Structural, Default)]
pub struct CreateDesktopReply {
    pub header: ReplyHeader,
    pub handle: ObjHandle,
}

#[derive(Clone, Copy, Debug, PartialEq, Eq, Structural, Default)]
pub struct OpenDesktopRequest {
    pub header: RequestHeader,
    pub winsta: ObjHandle,
    pub flags: u32,
    pub access: u32,
    pub attributes: u32,
}

#[derive(Clone, Copy, Debug, PartialEq, Eq, Structural, Default)]
pub struct OpenDesktopReply {
    pub header: ReplyHeader,
    pub handle: ObjHandle,
}

#[derive(Clone, Copy, Debug, PartialEq, Eq, Structural, Default)]
pub struct OpenInputDesktopRequest {
    pub header: RequestHeader,
    pub flags: u32,
    pub access: u32,
    pub attributes: u32,
}

#[derive(Clone, Copy, Debug, PartialEq, Eq, Structural, Default)]
pub struct OpenInputDesktopReply {
    pub header: ReplyHeader,
    pub handle: ObjHandle,
}

#[derive(Clone, Copy, Debug, PartialEq, Eq, Structural, Default)]
pub struct CloseDesktopRequest {
    pub header: RequestHeader,
    pub handle: ObjHandle,
}

#[derive(Clone, Copy, Debug, PartialEq, Eq, Structural, Default)]
pub struct CloseDesktopReply {
    pub header: ReplyHeader,
}

#[derive(Clone, Copy, Debug, PartialEq, Eq, Structural, Default)]
pub struct GetThreadDesktopRequest {
    pub header: RequestHeader,
    pub tid: ThreadId,
}

#[derive(Clone, Copy, Debug, PartialEq, Eq, Structural, Default)]
pub struct GetThreadDesktopReply {
    pub header: ReplyHeader,
    pub handle: ObjHandle,
}

#[derive(Clone, Copy, Debug, PartialEq, Eq, Structural, Default)]
pub struct SetThreadDesktopRequest {
    pub header: RequestHeader,
    pub handle: ObjHandle,
}

#[derive(Clone, Copy, Debug, PartialEq, Eq, Structural, Default)]
pub struct SetThreadDesktopReply {
    pub header: ReplyHeader,
}

#[derive(Clone, Copy, Debug, PartialEq, Eq, Structural, Default)]
pub struct EnumDesktopRequest {
    pub header: RequestHeader,
    pub winstation: ObjHandle,
    pub index: u32,
}

#[derive(Clone, Copy, Debug, PartialEq, Eq, Structural, Default)]
pub struct EnumDesktopReply {
    pub header: ReplyHeader,
    pub next: u32,
}

#[derive(Clone, Copy, Debug, PartialEq, Eq, Structural, Default)]
pub struct SetUserObjectInfoRequest {
    pub header: RequestHeader,
    pub handle: ObjHandle,
    pub flags: u32,
    pub obj_flags: u32,
}

#[derive(Clone, Copy, Debug, PartialEq, Eq, Structural, Default)]
pub struct SetUserObjectInfoReply {
    pub header: ReplyHeader,
    pub is_desktop: i32,
    pub old_obj_flags: u32,
}

#[derive(Clone, Copy, Debug, PartialEq, Eq, Structural, Default)]
pub struct RegisterHotkeyRequest {
    pub header: RequestHeader,
    pub window: UserHandle,
    pub id: i32,
    pub flags: u32,
    pub vkey: u32,
}

#[derive(Clone, Copy, Debug, PartialEq, Eq, Structural, Default)]
pub struct RegisterHotkeyReply {
    pub header: ReplyHeader,
    pub replaced: i32,
    pub flags: u32,
    pub vkey: u32,
}

#[derive(Clone, Copy, Debug, PartialEq, Eq, Structural, Default)]
pub struct UnregisterHotkeyRequest {
    pub header: RequestHeader,
    pub window: UserHandle,
    pub id: i32,
}

#[derive(Clone, Copy, Debug, PartialEq, Eq, Structural, Default)]
pub struct UnregisterHotkeyReply {
    pub header: ReplyHeader,
    pub flags: u32,
    pub vkey: u32,
}

#[derive(Clone, Copy, Debug, PartialEq, Eq, Structural, Default)]
pub struct AttachThreadInputRequest {
    pub header: RequestHeader,
    pub tid_from: ThreadId,
    pub tid_to: ThreadId,
    pub attach: i32,
}

#[derive(Clone, Copy, Debug, PartialEq, Eq, Structural, Default)]
pub struct AttachThreadInputReply {
    pub header: ReplyHeader,
}

#[derive(Clone, Copy, Debug, PartialEq, Eq, Structural, Default)]
pub struct GetThreadInputRequest {
    pub header: RequestHeader,
    pub tid: ThreadId,
}

#[derive(Clone, Copy, Debug, PartialEq, Eq, Structural, Default)]
pub struct GetThreadInputReply {
    pub header: ReplyHeader,
    pub focus: UserHandle,
    pub capture: UserHandle,
    pub active: UserHandle,
    pub foreground: UserHandle,
    pub menu_owner: UserHandle,
    pub move_size: UserHandle,
    pub caret: UserHandle,
    pub cursor: UserHandle,
    pub show_count: i32,
    pub rect: Rect,
}

#[derive(Clone, Copy, Debug, PartialEq, Eq, Structural, Default)]
pub struct GetLastInputTimeRequest {
    pub header: RequestHeader,
}

#[derive(Clone, Copy, Debug, PartialEq, Eq, Structural, Default)]
pub struct GetLastInputTimeReply {
    pub header: ReplyHeader,
    pub time: u32,
}

#[derive(Clone, Copy, Debug, PartialEq, Eq, Structural, Default)]
pub struct GetKeyStateRequest {
    pub header: RequestHeader,
    pub _async: i32,
    pub key: i32,
}

#[derive(Clone, Copy, Debug, PartialEq, Eq, Structural, Default)]
pub struct GetKeyStateReply {
    pub header: ReplyHeader,
    pub state: u8,
}

#[derive(Clone, Copy, Debug, PartialEq, Eq, Structural, Default)]
pub struct SetKeyStateRequest {
    pub header: RequestHeader,
    pub _async: i32,
}

#[derive(Clone, Copy, Debug, PartialEq, Eq, Structural, Default)]
pub struct SetKeyStateReply {
    pub header: ReplyHeader,
}

#[derive(Clone, Copy, Debug, PartialEq, Eq, Structural, Default)]
pub struct SetForegroundWindowRequest {
    pub header: RequestHeader,
    pub handle: UserHandle,
}

#[derive(Clone, Copy, Debug, PartialEq, Eq, Structural, Default)]
pub struct SetForegroundWindowReply {
    pub header: ReplyHeader,
    pub previous: UserHandle,
    pub send_msg_old: i32,
    pub send_msg_new: i32,
}

#[derive(Clone, Copy, Debug, PartialEq, Eq, Structural, Default)]
pub struct SetFocusWindowRequest {
    pub header: RequestHeader,
    pub handle: UserHandle,
}

#[derive(Clone, Copy, Debug, PartialEq, Eq, Structural, Default)]
pub struct SetFocusWindowReply {
    pub header: ReplyHeader,
    pub previous: UserHandle,
}

#[derive(Clone, Copy, Debug, PartialEq, Eq, Structural, Default)]
pub struct SetActiveWindowRequest {
    pub header: RequestHeader,
    pub handle: UserHandle,
}

#[derive(Clone, Copy, Debug, PartialEq, Eq, Structural, Default)]
pub struct SetActiveWindowReply {
    pub header: ReplyHeader,
    pub previous: UserHandle,
}

#[derive(Clone, Copy, Debug, PartialEq, Eq, Structural, Default)]
pub struct SetCaptureWindowRequest {
    pub header: RequestHeader,
    pub handle: UserHandle,
    pub flags: u32,
}

#[derive(Clone, Copy, Debug, PartialEq, Eq, Structural, Default)]
pub struct SetCaptureWindowReply {
    pub header: ReplyHeader,
    pub previous: UserHandle,
    pub full_handle: UserHandle,
}

#[derive(Clone, Copy, Debug, PartialEq, Eq, Structural, Default)]
pub struct SetCaretWindowRequest {
    pub header: RequestHeader,
    pub handle: UserHandle,
    pub width: i32,
    pub height: i32,
}

#[derive(Clone, Copy, Debug, PartialEq, Eq, Structural, Default)]
pub struct SetCaretWindowReply {
    pub header: ReplyHeader,
    pub previous: UserHandle,
    pub old_rect: Rect,
    pub old_hide: i32,
    pub old_state: i32,
}

#[derive(Clone, Copy, Debug, PartialEq, Eq, Structural, Default)]
pub struct SetCaretInfoRequest {
    pub header: RequestHeader,
    pub flags: u32,
    pub handle: UserHandle,
    pub x: i32,
    pub y: i32,
    pub hide: i32,
    pub state: i32,
}

#[derive(Clone, Copy, Debug, PartialEq, Eq, Structural, Default)]
pub struct SetCaretInfoReply {
    pub header: ReplyHeader,
    pub full_handle: UserHandle,
    pub old_rect: Rect,
    pub old_hide: i32,
    pub old_state: i32,
}

#[derive(Clone, Copy, Debug, PartialEq, Eq, Structural, Default)]
pub struct SetHookRequest {
    pub header: RequestHeader,
    pub id: i32,
    pub pid: ProcessId,
    pub tid: ThreadId,
    pub event_min: i32,
    pub event_max: i32,
    pub proc: ClientPtr,
    pub flags: i32,
    pub unicode: i32,
}

#[derive(Clone, Copy, Debug, PartialEq, Eq, Structural, Default)]
pub struct SetHookReply {
    pub header: ReplyHeader,
    pub handle: UserHandle,
    pub active_hooks: u32,
}

#[derive(Clone, Copy, Debug, PartialEq, Eq, Structural, Default)]
pub struct RemoveHookRequest {
    pub header: RequestHeader,
    pub handle: UserHandle,
    pub proc: ClientPtr,
    pub id: i32,
}

#[derive(Clone, Copy, Debug, PartialEq, Eq, Structural, Default)]
pub struct RemoveHookReply {
    pub header: ReplyHeader,
    pub active_hooks: u32,
}

#[derive(Clone, Copy, Debug, PartialEq, Eq, Structural, Default)]
pub struct StartHookChainRequest {
    pub header: RequestHeader,
    pub id: i32,
    pub event: i32,
    pub window: UserHandle,
    pub object_id: i32,
    pub child_id: i32,
}

#[derive(Clone, Copy, Debug, PartialEq, Eq, Structural, Default)]
pub struct StartHookChainReply {
    pub header: ReplyHeader,
    pub handle: UserHandle,
    pub pid: ProcessId,
    pub tid: ThreadId,
    pub unicode: i32,
    pub proc: ClientPtr,
    pub active_hooks: u32,
}

#[derive(Clone, Copy, Debug, PartialEq, Eq, Structural, Default)]
pub struct FinishHookChainRequest {
    pub header: RequestHeader,
    pub id: i32,
}

#[derive(Clone, Copy, Debug, PartialEq, Eq, Structural, Default)]
pub struct FinishHookChainReply {
    pub header: ReplyHeader,
}

#[derive(Clone, Copy, Debug, PartialEq, Eq, Structural, Default)]
pub struct GetHookInfoRequest {
    pub header: RequestHeader,
    pub handle: UserHandle,
    pub get_next: i32,
    pub event: i32,
    pub window: UserHandle,
    pub object_id: i32,
    pub child_id: i32,
}

#[derive(Clone, Copy, Debug, PartialEq, Eq, Structural, Default)]
pub struct GetHookInfoReply {
    pub header: ReplyHeader,
    pub handle: UserHandle,
    pub id: i32,
    pub pid: ProcessId,
    pub tid: ThreadId,
    pub proc: ClientPtr,
    pub unicode: i32,
}

#[derive(Clone, Copy, Debug, PartialEq, Eq, Structural, Default)]
pub struct CreateClassRequest {
    pub header: RequestHeader,
    pub local: i32,
    pub atom: Atom,
    pub style: u32,
    pub instance: ModHandle,
    pub extra: i32,
    pub win_extra: i32,
    pub client_ptr: ClientPtr,
    pub name_offset: DataSize,
}

#[derive(Clone, Copy, Debug, PartialEq, Eq, Structural, Default)]
pub struct CreateClassReply {
    pub header: ReplyHeader,
    pub atom: Atom,
}

#[derive(Clone, Copy, Debug, PartialEq, Eq, Structural, Default)]
pub struct DestroyClassRequest {
    pub header: RequestHeader,
    pub atom: Atom,
    pub instance: ModHandle,
}

#[derive(Clone, Copy, Debug, PartialEq, Eq, Structural, Default)]
pub struct DestroyClassReply {
    pub header: ReplyHeader,
    pub client_ptr: ClientPtr,
}

#[derive(Clone, Copy, Debug, PartialEq, Eq, Structural, Default)]
pub struct SetClassInfoRequest {
    pub header: RequestHeader,
    pub window: UserHandle,
    pub flags: u32,
    pub atom: Atom,
    pub style: u32,
    pub win_extra: i32,
    pub instance: ModHandle,
    pub extra_offset: i32,
    pub extra_size: DataSize,
    pub extra_value: LParam,
}

#[derive(Clone, Copy, Debug, PartialEq, Eq, Structural, Default)]
pub struct SetClassInfoReply {
    pub header: ReplyHeader,
    pub old_atom: Atom,
    pub base_atom: Atom,
    pub old_instance: ModHandle,
    pub old_extra_value: LParam,
    pub old_style: u32,
    pub old_extra: i32,
    pub old_win_extra: i32,
}

#[derive(Clone, Copy, Debug, PartialEq, Eq, Structural, Default)]
pub struct OpenClipboardRequest {
    pub header: RequestHeader,
    pub window: UserHandle,
}

#[derive(Clone, Copy, Debug, PartialEq, Eq, Structural, Default)]
pub struct OpenClipboardReply {
    pub header: ReplyHeader,
    pub owner: UserHandle,
}

#[derive(Clone, Copy, Debug, PartialEq, Eq, Structural, Default)]
pub struct CloseClipboardRequest {
    pub header: RequestHeader,
}

#[derive(Clone, Copy, Debug, PartialEq, Eq, Structural, Default)]
pub struct CloseClipboardReply {
    pub header: ReplyHeader,
    pub viewer: UserHandle,
    pub owner: UserHandle,
}

#[derive(Clone, Copy, Debug, PartialEq, Eq, Structural, Default)]
pub struct EmptyClipboardRequest {
    pub header: RequestHeader,
}

#[derive(Clone, Copy, Debug, PartialEq, Eq, Structural, Default)]
pub struct EmptyClipboardReply {
    pub header: ReplyHeader,
}

#[derive(Clone, Copy, Debug, PartialEq, Eq, Structural, Default)]
pub struct SetClipboardDataRequest {
    pub header: RequestHeader,
    pub format: u32,
    pub lcid: u32,
}

#[derive(Clone, Copy, Debug, PartialEq, Eq, Structural, Default)]
pub struct SetClipboardDataReply {
    pub header: ReplyHeader,
    pub seqno: u32,
}

#[derive(Clone, Copy, Debug, PartialEq, Eq, Structural, Default)]
pub struct GetClipboardDataRequest {
    pub header: RequestHeader,
    pub format: u32,
    pub render: i32,
    pub cached: i32,
    pub seqno: u32,
}

#[derive(Clone, Copy, Debug, PartialEq, Eq, Structural, Default)]
pub struct GetClipboardDataReply {
    pub header: ReplyHeader,
    pub from: u32,
    pub owner: UserHandle,
    pub seqno: u32,
    pub total: DataSize,
}

#[derive(Clone, Copy, Debug, PartialEq, Eq, Structural, Default)]
pub struct GetClipboardFormatsRequest {
    pub header: RequestHeader,
    pub format: u32,
}

#[derive(Clone, Copy, Debug, PartialEq, Eq, Structural, Default)]
pub struct GetClipboardFormatsReply {
    pub header: ReplyHeader,
    pub count: u32,
}

#[derive(Clone, Copy, Debug, PartialEq, Eq, Structural, Default)]
pub struct EnumClipboardFormatsRequest {
    pub header: RequestHeader,
    pub previous: u32,
}

#[derive(Clone, Copy, Debug, PartialEq, Eq, Structural, Default)]
pub struct EnumClipboardFormatsReply {
    pub header: ReplyHeader,
    pub format: u32,
}

#[derive(Clone, Copy, Debug, PartialEq, Eq, Structural, Default)]
pub struct ReleaseClipboardRequest {
    pub header: RequestHeader,
    pub owner: UserHandle,
}

#[derive(Clone, Copy, Debug, PartialEq, Eq, Structural, Default)]
pub struct ReleaseClipboardReply {
    pub header: ReplyHeader,
    pub viewer: UserHandle,
    pub owner: UserHandle,
}

#[derive(Clone, Copy, Debug, PartialEq, Eq, Structural, Default)]
pub struct GetClipboardInfoRequest {
    pub header: RequestHeader,
}

#[derive(Clone, Copy, Debug, PartialEq, Eq, Structural, Default)]
pub struct GetClipboardInfoReply {
    pub header: ReplyHeader,
    pub window: UserHandle,
    pub owner: UserHandle,
    pub viewer: UserHandle,
    pub seqno: u32,
}

#[derive(Clone, Copy, Debug, PartialEq, Eq, Structural, Default)]
pub struct SetClipboardViewerRequest {
    pub header: RequestHeader,
    pub viewer: UserHandle,
    pub previous: UserHandle,
}

#[derive(Clone, Copy, Debug, PartialEq, Eq, Structural, Default)]
pub struct SetClipboardViewerReply {
    pub header: ReplyHeader,
    pub old_viewer: UserHandle,
    pub owner: UserHandle,
}

#[derive(Clone, Copy, Debug, PartialEq, Eq, Structural, Default)]
pub struct AddClipboardListenerRequest {
    pub header: RequestHeader,
    pub window: UserHandle,
}

#[derive(Clone, Copy, Debug, PartialEq, Eq, Structural, Default)]
pub struct AddClipboardListenerReply {
    pub header: ReplyHeader,
}

#[derive(Clone, Copy, Debug, PartialEq, Eq, Structural, Default)]
pub struct RemoveClipboardListenerRequest {
    pub header: RequestHeader,
    pub window: UserHandle,
}

#[derive(Clone, Copy, Debug, PartialEq, Eq, Structural, Default)]
pub struct RemoveClipboardListenerReply {
    pub header: ReplyHeader,
}

#[derive(Clone, Copy, Debug, PartialEq, Eq, Structural, Default)]
pub struct CreateTokenRequest {
    pub header: RequestHeader,
    pub token_id: LUID,
    pub access: u32,
    pub primary: i32,
    pub impersonation_level: i32,
    pub expire: AbsoluteTime,
    pub group_count: i32,
    pub primary_group: i32,
    pub priv_count: i32,
}

#[derive(Clone, Copy, Debug, PartialEq, Eq, Structural, Default)]
pub struct CreateTokenReply {
    pub header: ReplyHeader,
    pub token: ObjHandle,
}

#[derive(Clone, Copy, Debug, PartialEq, Eq, Structural, Default)]
pub struct OpenTokenRequest {
    pub header: RequestHeader,
    pub handle: ObjHandle,
    pub access: u32,
    pub attributes: u32,
    pub flags: u32,
}

#[derive(Clone, Copy, Debug, PartialEq, Eq, Structural, Default)]
pub struct OpenTokenReply {
    pub header: ReplyHeader,
    pub token: ObjHandle,
}

#[derive(Clone, Copy, Debug, PartialEq, Eq, Structural, Default)]
pub struct SetGlobalWindowsRequest {
    pub header: RequestHeader,
    pub flags: u32,
    pub shell_window: UserHandle,
    pub shell_listview: UserHandle,
    pub progman_window: UserHandle,
    pub taskman_window: UserHandle,
}

#[derive(Clone, Copy, Debug, PartialEq, Eq, Structural, Default)]
pub struct SetGlobalWindowsReply {
    pub header: ReplyHeader,
    pub old_shell_window: UserHandle,
    pub old_shell_listview: UserHandle,
    pub old_progman_window: UserHandle,
    pub old_taskman_window: UserHandle,
}

#[derive(Clone, Copy, Debug, PartialEq, Eq, Structural, Default)]
pub struct AdjustTokenPrivilegesRequest {
    pub header: RequestHeader,
    pub handle: ObjHandle,
    pub disable_all: i32,
    pub get_modified_state: i32,
}

#[derive(Clone, Copy, Debug, PartialEq, Eq, Structural, Default)]
pub struct AdjustTokenPrivilegesReply {
    pub header: ReplyHeader,
    pub len: u32,
}

#[derive(Clone, Copy, Debug, PartialEq, Eq, Structural, Default)]
pub struct GetTokenPrivilegesRequest {
    pub header: RequestHeader,
    pub handle: ObjHandle,
}

#[derive(Clone, Copy, Debug, PartialEq, Eq, Structural, Default)]
pub struct GetTokenPrivilegesReply {
    pub header: ReplyHeader,
    pub len: u32,
}

#[derive(Clone, Copy, Debug, PartialEq, Eq, Structural, Default)]
pub struct CheckTokenPrivilegesRequest {
    pub header: RequestHeader,
    pub handle: ObjHandle,
    pub all_required: i32,
}

#[derive(Clone, Copy, Debug, PartialEq, Eq, Structural, Default)]
pub struct CheckTokenPrivilegesReply {
    pub header: ReplyHeader,
    pub has_privileges: i32,
}

#[derive(Clone, Copy, Debug, PartialEq, Eq, Structural, Default)]
pub struct DuplicateTokenRequest {
    pub header: RequestHeader,
    pub handle: ObjHandle,
    pub access: u32,
    pub primary: i32,
    pub impersonation_level: i32,
}

#[derive(Clone, Copy, Debug, PartialEq, Eq, Structural, Default)]
pub struct DuplicateTokenReply {
    pub header: ReplyHeader,
    pub new_handle: ObjHandle,
}

#[derive(Clone, Copy, Debug, PartialEq, Eq, Structural, Default)]
pub struct FilterTokenRequest {
    pub header: RequestHeader,
    pub handle: ObjHandle,
    pub flags: u32,
    pub privileges_size: DataSize,
}

#[derive(Clone, Copy, Debug, PartialEq, Eq, Structural, Default)]
pub struct FilterTokenReply {
    pub header: ReplyHeader,
    pub new_handle: ObjHandle,
}

#[derive(Clone, Copy, Debug, PartialEq, Eq, Structural, Default)]
pub struct AccessCheckRequest {
    pub header: RequestHeader,
    pub handle: ObjHandle,
    pub desired_access: u32,
    pub mapping: GenericMap,
}

#[derive(Clone, Copy, Debug, PartialEq, Eq, Structural, Default)]
pub struct AccessCheckReply {
    pub header: ReplyHeader,
    pub access_granted: u32,
    pub access_status: u32,
    pub privileges_len: u32,
}

#[derive(Clone, Copy, Debug, PartialEq, Eq, Structural, Default)]
pub struct GetTokenSidRequest {
    pub header: RequestHeader,
    pub handle: ObjHandle,
    pub which_sid: u32,
}

#[derive(Clone, Copy, Debug, PartialEq, Eq, Structural, Default)]
pub struct GetTokenSidReply {
    pub header: ReplyHeader,
    pub sid_len: DataSize,
}

#[derive(Clone, Copy, Debug, PartialEq, Eq, Structural, Default)]
pub struct GetTokenGroupsRequest {
    pub header: RequestHeader,
    pub handle: ObjHandle,
    pub attr_mask: u32,
}

#[derive(Clone, Copy, Debug, PartialEq, Eq, Structural, Default)]
pub struct GetTokenGroupsReply {
    pub header: ReplyHeader,
    pub attr_len: DataSize,
    pub sid_len: DataSize,
}

#[derive(Clone, Copy, Debug, PartialEq, Eq, Structural, Default)]
pub struct GetTokenDefaultDaclRequest {
    pub header: RequestHeader,
    pub handle: ObjHandle,
}

#[derive(Clone, Copy, Debug, PartialEq, Eq, Structural, Default)]
pub struct GetTokenDefaultDaclReply {
    pub header: ReplyHeader,
    pub acl_len: DataSize,
}

#[derive(Clone, Copy, Debug, PartialEq, Eq, Structural, Default)]
pub struct SetTokenDefaultDaclRequest {
    pub header: RequestHeader,
    pub handle: ObjHandle,
}

#[derive(Clone, Copy, Debug, PartialEq, Eq, Structural, Default)]
pub struct SetTokenDefaultDaclReply {
    pub header: ReplyHeader,
}

#[derive(Clone, Copy, Debug, PartialEq, Eq, Structural, Default)]
pub struct SetSecurityObjectRequest {
    pub header: RequestHeader,
    pub handle: ObjHandle,
    pub security_info: u32,
}

#[derive(Clone, Copy, Debug, PartialEq, Eq, Structural, Default)]
pub struct SetSecurityObjectReply {
    pub header: ReplyHeader,
}

#[derive(Clone, Copy, Debug, PartialEq, Eq, Structural, Default)]
pub struct GetSecurityObjectRequest {
    pub header: RequestHeader,
    pub handle: ObjHandle,
    pub security_info: u32,
}

#[derive(Clone, Copy, Debug, PartialEq, Eq, Structural, Default)]
pub struct GetSecurityObjectReply {
    pub header: ReplyHeader,
    pub sd_len: u32,
}

#[derive(Clone, Copy, Debug, PartialEq, Eq, Structural, Default)]
pub struct GetSystemHandlesRequest {
    pub header: RequestHeader,
}

#[derive(Clone, Copy, Debug, PartialEq, Eq, Structural, Default)]
pub struct GetSystemHandlesReply {
    pub header: ReplyHeader,
    pub count: u32,
}

#[derive(Clone, Copy, Debug, PartialEq, Eq, Structural, Default)]
pub struct CreateMailslotRequest {
    pub header: RequestHeader,
    pub access: u32,
    pub read_timeout: Timeout,
    pub max_msgsize: u32,
}

#[derive(Clone, Copy, Debug, PartialEq, Eq, Structural, Default)]
pub struct CreateMailslotReply {
    pub header: ReplyHeader,
    pub handle: ObjHandle,
}

#[derive(Clone, Copy, Debug, PartialEq, Eq, Structural, Default)]
pub struct SetMailslotInfoRequest {
    pub header: RequestHeader,
    pub handle: ObjHandle,
    pub read_timeout: Timeout,
    pub flags: u32,
}

#[derive(Clone, Copy, Debug, PartialEq, Eq, Structural, Default)]
pub struct SetMailslotInfoReply {
    pub header: ReplyHeader,
    pub read_timeout: Timeout,
    pub max_msgsize: u32,
}

#[derive(Clone, Copy, Debug, PartialEq, Eq, Structural, Default)]
pub struct CreateDirectoryRequest {
    pub header: RequestHeader,
    pub access: u32,
}

#[derive(Clone, Copy, Debug, PartialEq, Eq, Structural, Default)]
pub struct CreateDirectoryReply {
    pub header: ReplyHeader,
    pub handle: ObjHandle,
}

#[derive(Clone, Copy, Debug, PartialEq, Eq, Structural, Default)]
pub struct OpenDirectoryRequest {
    pub header: RequestHeader,
    pub access: u32,
    pub attributes: u32,
    pub rootdir: ObjHandle,
}

#[derive(Clone, Copy, Debug, PartialEq, Eq, Structural, Default)]
pub struct OpenDirectoryReply {
    pub header: ReplyHeader,
    pub handle: ObjHandle,
}

#[derive(Clone, Copy, Debug, PartialEq, Eq, Structural, Default)]
pub struct GetDirectoryEntryRequest {
    pub header: RequestHeader,
    pub handle: ObjHandle,
    pub index: u32,
}

#[derive(Clone, Copy, Debug, PartialEq, Eq, Structural, Default)]
pub struct GetDirectoryEntryReply {
    pub header: ReplyHeader,
    pub total_len: DataSize,
    pub name_len: DataSize,
}

#[derive(Clone, Copy, Debug, PartialEq, Eq, Structural, Default)]
pub struct CreateSymlinkRequest {
    pub header: RequestHeader,
    pub access: u32,
}

#[derive(Clone, Copy, Debug, PartialEq, Eq, Structural, Default)]
pub struct CreateSymlinkReply {
    pub header: ReplyHeader,
    pub handle: ObjHandle,
}

#[derive(Clone, Copy, Debug, PartialEq, Eq, Structural, Default)]
pub struct OpenSymlinkRequest {
    pub header: RequestHeader,
    pub access: u32,
    pub attributes: u32,
    pub rootdir: ObjHandle,
}

#[derive(Clone, Copy, Debug, PartialEq, Eq, Structural, Default)]
pub struct OpenSymlinkReply {
    pub header: ReplyHeader,
    pub handle: ObjHandle,
}

#[derive(Clone, Copy, Debug, PartialEq, Eq, Structural, Default)]
pub struct QuerySymlinkRequest {
    pub header: RequestHeader,
    pub handle: ObjHandle,
}

#[derive(Clone, Copy, Debug, PartialEq, Eq, Structural, Default)]
pub struct QuerySymlinkReply {
    pub header: ReplyHeader,
    pub total: DataSize,
}

#[derive(Clone, Copy, Debug, PartialEq, Eq, Structural, Default)]
pub struct GetObjectInfoRequest {
    pub header: RequestHeader,
    pub handle: ObjHandle,
}

#[derive(Clone, Copy, Debug, PartialEq, Eq, Structural, Default)]
pub struct GetObjectInfoReply {
    pub header: ReplyHeader,
    pub access: u32,
    pub ref_count: u32,
    pub handle_count: u32,
}

#[derive(Clone, Copy, Debug, PartialEq, Eq, Structural, Default)]
pub struct GetObjectNameRequest {
    pub header: RequestHeader,
    pub handle: ObjHandle,
}

#[derive(Clone, Copy, Debug, PartialEq, Eq, Structural, Default)]
pub struct GetObjectNameReply {
    pub header: ReplyHeader,
    pub total: DataSize,
}

#[derive(Clone, Copy, Debug, PartialEq, Eq, Structural, Default)]
pub struct GetObjectTypeRequest {
    pub header: RequestHeader,
    pub handle: ObjHandle,
}

#[derive(Clone, Copy, Debug, PartialEq, Eq, Structural, Default)]
pub struct GetObjectTypeReply {
    pub header: ReplyHeader,
}

#[derive(Clone, Copy, Debug, PartialEq, Eq, Structural, Default)]
pub struct GetObjectTypesRequest {
    pub header: RequestHeader,
}

#[derive(Clone, Copy, Debug, PartialEq, Eq, Structural, Default)]
pub struct GetObjectTypesReply {
    pub header: ReplyHeader,
    pub count: i32,
}

#[derive(Clone, Copy, Debug, PartialEq, Eq, Structural, Default)]
pub struct AllocateLocallyUniqueIdRequest {
    pub header: RequestHeader,
}

#[derive(Clone, Copy, Debug, PartialEq, Eq, Structural, Default)]
pub struct AllocateLocallyUniqueIdReply {
    pub header: ReplyHeader,
    pub luid: LUID,
}

#[derive(Clone, Copy, Debug, PartialEq, Eq, Structural, Default)]
pub struct CreateDeviceManagerRequest {
    pub header: RequestHeader,
    pub access: u32,
    pub attributes: u32,
}

#[derive(Clone, Copy, Debug, PartialEq, Eq, Structural, Default)]
pub struct CreateDeviceManagerReply {
    pub header: ReplyHeader,
    pub handle: ObjHandle,
}

#[derive(Clone, Copy, Debug, PartialEq, Eq, Structural, Default)]
pub struct CreateDeviceRequest {
    pub header: RequestHeader,
    pub rootdir: ObjHandle,
    pub user_ptr: ClientPtr,
    pub manager: ObjHandle,
}

#[derive(Clone, Copy, Debug, PartialEq, Eq, Structural, Default)]
pub struct CreateDeviceReply {
    pub header: ReplyHeader,
}

#[derive(Clone, Copy, Debug, PartialEq, Eq, Structural, Default)]
pub struct DeleteDeviceRequest {
    pub header: RequestHeader,
    pub manager: ObjHandle,
    pub device: ClientPtr,
}

#[derive(Clone, Copy, Debug, PartialEq, Eq, Structural, Default)]
pub struct DeleteDeviceReply {
    pub header: ReplyHeader,
}

#[derive(Clone, Copy, Debug, PartialEq, Eq, Structural, Default)]
pub struct GetNextDeviceRequestRequest {
    pub header: RequestHeader,
    pub manager: ObjHandle,
    pub prev: ObjHandle,
    pub status: u32,
    pub user_ptr: ClientPtr,
    pub pending: i32,
    pub iosb_status: u32,
    pub result: DataSize,
}

#[derive(Clone, Copy, Debug, PartialEq, Eq, Structural, Default)]
pub struct GetNextDeviceRequestReply {
    pub header: ReplyHeader,
    pub params: IrpParam,
    pub next: ObjHandle,
    pub client_tid: ThreadId,
    pub client_thread: ClientPtr,
    pub in_size: DataSize,
}

#[derive(Clone, Copy, Debug, PartialEq, Eq, Structural, Default)]
pub struct GetKernelObjectPtrRequest {
    pub header: RequestHeader,
    pub manager: ObjHandle,
    pub handle: ObjHandle,
}

#[derive(Clone, Copy, Debug, PartialEq, Eq, Structural, Default)]
pub struct GetKernelObjectPtrReply {
    pub header: ReplyHeader,
    pub user_ptr: ClientPtr,
}

#[derive(Clone, Copy, Debug, PartialEq, Eq, Structural, Default)]
pub struct SetKernelObjectPtrRequest {
    pub header: RequestHeader,
    pub manager: ObjHandle,
    pub handle: ObjHandle,
    pub user_ptr: ClientPtr,
}

#[derive(Clone, Copy, Debug, PartialEq, Eq, Structural, Default)]
pub struct SetKernelObjectPtrReply {
    pub header: ReplyHeader,
}

#[derive(Clone, Copy, Debug, PartialEq, Eq, Structural, Default)]
pub struct GrabKernelObjectRequest {
    pub header: RequestHeader,
    pub manager: ObjHandle,
    pub user_ptr: ClientPtr,
}

#[derive(Clone, Copy, Debug, PartialEq, Eq, Structural, Default)]
pub struct GrabKernelObjectReply {
    pub header: ReplyHeader,
}

#[derive(Clone, Copy, Debug, PartialEq, Eq, Structural, Default)]
pub struct ReleaseKernelObjectRequest {
    pub header: RequestHeader,
    pub manager: ObjHandle,
    pub user_ptr: ClientPtr,
}

#[derive(Clone, Copy, Debug, PartialEq, Eq, Structural, Default)]
pub struct ReleaseKernelObjectReply {
    pub header: ReplyHeader,
}

#[derive(Clone, Copy, Debug, PartialEq, Eq, Structural, Default)]
pub struct GetKernelObjectHandleRequest {
    pub header: RequestHeader,
    pub manager: ObjHandle,
    pub user_ptr: ClientPtr,
    pub access: u32,
}

#[derive(Clone, Copy, Debug, PartialEq, Eq, Structural, Default)]
pub struct GetKernelObjectHandleReply {
    pub header: ReplyHeader,
    pub handle: ObjHandle,
}

#[derive(Clone, Copy, Debug, PartialEq, Eq, Structural, Default)]
pub struct MakeProcessSystemRequest {
    pub header: RequestHeader,
    pub handle: ObjHandle,
}

#[derive(Clone, Copy, Debug, PartialEq, Eq, Structural, Default)]
pub struct MakeProcessSystemReply {
    pub header: ReplyHeader,
    pub event: ObjHandle,
}

#[derive(Clone, Copy, Debug, PartialEq, Eq, Structural, Default)]
pub struct GetTokenInfoRequest {
    pub header: RequestHeader,
    pub handle: ObjHandle,
}

#[derive(Clone, Copy, Debug, PartialEq, Eq, Structural, Default)]
pub struct GetTokenInfoReply {
    pub header: ReplyHeader,
    pub token_id: LUID,
    pub modified_id: LUID,
    pub session_id: u32,
    pub primary: i32,
    pub impersonation_level: i32,
    pub elevation: i32,
    pub group_count: i32,
    pub privilege_count: i32,
}

#[derive(Clone, Copy, Debug, PartialEq, Eq, Structural, Default)]
pub struct CreateLinkedTokenRequest {
    pub header: RequestHeader,
    pub handle: ObjHandle,
}

#[derive(Clone, Copy, Debug, PartialEq, Eq, Structural, Default)]
pub struct CreateLinkedTokenReply {
    pub header: ReplyHeader,
    pub linked: ObjHandle,
}

#[derive(Clone, Copy, Debug, PartialEq, Eq, Structural, Default)]
pub struct CreateCompletionRequest {
    pub header: RequestHeader,
    pub access: u32,
    pub concurrent: u32,
}

#[derive(Clone, Copy, Debug, PartialEq, Eq, Structural, Default)]
pub struct CreateCompletionReply {
    pub header: ReplyHeader,
    pub handle: ObjHandle,
}

#[derive(Clone, Copy, Debug, PartialEq, Eq, Structural, Default)]
pub struct OpenCompletionRequest {
    pub header: RequestHeader,
    pub access: u32,
    pub attributes: u32,
    pub rootdir: ObjHandle,
}

#[derive(Clone, Copy, Debug, PartialEq, Eq, Structural, Default)]
pub struct OpenCompletionReply {
    pub header: ReplyHeader,
    pub handle: ObjHandle,
}

#[derive(Clone, Copy, Debug, PartialEq, Eq, Structural, Default)]
pub struct AddCompletionRequest {
    pub header: RequestHeader,
    pub handle: ObjHandle,
    pub ckey: ApcParam,
    pub cvalue: ApcParam,
    pub information: ApcParam,
    pub status: u32,
}

#[derive(Clone, Copy, Debug, PartialEq, Eq, Structural, Default)]
pub struct AddCompletionReply {
    pub header: ReplyHeader,
}

#[derive(Clone, Copy, Debug, PartialEq, Eq, Structural, Default)]
pub struct RemoveCompletionRequest {
    pub header: RequestHeader,
    pub handle: ObjHandle,
}

#[derive(Clone, Copy, Debug, PartialEq, Eq, Structural, Default)]
pub struct RemoveCompletionReply {
    pub header: ReplyHeader,
    pub ckey: ApcParam,
    pub cvalue: ApcParam,
    pub information: ApcParam,
    pub status: u32,
}

#[derive(Clone, Copy, Debug, PartialEq, Eq, Structural, Default)]
pub struct QueryCompletionRequest {
    pub header: RequestHeader,
    pub handle: ObjHandle,
}

#[derive(Clone, Copy, Debug, PartialEq, Eq, Structural, Default)]
pub struct QueryCompletionReply {
    pub header: ReplyHeader,
    pub depth: u32,
}

#[derive(Clone, Copy, Debug, PartialEq, Eq, Structural, Default)]
pub struct SetCompletionInfoRequest {
    pub header: RequestHeader,
    pub handle: ObjHandle,
    pub ckey: ApcParam,
    pub chandle: ObjHandle,
}

#[derive(Clone, Copy, Debug, PartialEq, Eq, Structural, Default)]
pub struct SetCompletionInfoReply {
    pub header: ReplyHeader,
}

#[derive(Clone, Copy, Debug, PartialEq, Eq, Structural, Default)]
pub struct AddFdCompletionRequest {
    pub header: RequestHeader,
    pub handle: ObjHandle,
    pub cvalue: ApcParam,
    pub information: ApcParam,
    pub status: u32,
    pub _async: i32,
}

#[derive(Clone, Copy, Debug, PartialEq, Eq, Structural, Default)]
pub struct AddFdCompletionReply {
    pub header: ReplyHeader,
}

#[derive(Clone, Copy, Debug, PartialEq, Eq, Structural, Default)]
pub struct SetFdCompletionModeRequest {
    pub header: RequestHeader,
    pub handle: ObjHandle,
    pub flags: u32,
}

#[derive(Clone, Copy, Debug, PartialEq, Eq, Structural, Default)]
pub struct SetFdCompletionModeReply {
    pub header: ReplyHeader,
}

#[derive(Clone, Copy, Debug, PartialEq, Eq, Structural, Default)]
pub struct SetFdDispInfoRequest {
    pub header: RequestHeader,
    pub handle: ObjHandle,
    pub flags: u32,
}

#[derive(Clone, Copy, Debug, PartialEq, Eq, Structural, Default)]
pub struct SetFdDispInfoReply {
    pub header: ReplyHeader,
}

#[derive(Clone, Copy, Debug, PartialEq, Eq, Structural, Default)]
pub struct SetFdNameInfoRequest {
    pub header: RequestHeader,
    pub handle: ObjHandle,
    pub rootdir: ObjHandle,
    pub namelen: DataSize,
    pub link: i32,
    pub flags: u32,
}

#[derive(Clone, Copy, Debug, PartialEq, Eq, Structural, Default)]
pub struct SetFdNameInfoReply {
    pub header: ReplyHeader,
}

#[derive(Clone, Copy, Debug, PartialEq, Eq, Structural, Default)]
pub struct SetFdEofInfoRequest {
    pub header: RequestHeader,
    pub handle: ObjHandle,
    pub eof: FilePos,
}

#[derive(Clone, Copy, Debug, PartialEq, Eq, Structural, Default)]
pub struct SetFdEofInfoReply {
    pub header: ReplyHeader,
}

#[derive(Clone, Copy, Debug, PartialEq, Eq, Structural, Default)]
pub struct GetWindowLayeredInfoRequest {
    pub header: RequestHeader,
    pub handle: UserHandle,
}

#[derive(Clone, Copy, Debug, PartialEq, Eq, Structural, Default)]
pub struct GetWindowLayeredInfoReply {
    pub header: ReplyHeader,
    pub color_key: u32,
    pub alpha: u32,
    pub flags: u32,
}

#[derive(Clone, Copy, Debug, PartialEq, Eq, Structural, Default)]
pub struct SetWindowLayeredInfoRequest {
    pub header: RequestHeader,
    pub handle: UserHandle,
    pub color_key: u32,
    pub alpha: u32,
    pub flags: u32,
}

#[derive(Clone, Copy, Debug, PartialEq, Eq, Structural, Default)]
pub struct SetWindowLayeredInfoReply {
    pub header: ReplyHeader,
}

#[derive(Clone, Copy, Debug, PartialEq, Eq, Structural, Default)]
pub struct AllocUserHandleRequest {
    pub header: RequestHeader,
}

#[derive(Clone, Copy, Debug, PartialEq, Eq, Structural, Default)]
pub struct AllocUserHandleReply {
    pub header: ReplyHeader,
    pub handle: UserHandle,
}

#[derive(Clone, Copy, Debug, PartialEq, Eq, Structural, Default)]
pub struct FreeUserHandleRequest {
    pub header: RequestHeader,
    pub handle: UserHandle,
}

#[derive(Clone, Copy, Debug, PartialEq, Eq, Structural, Default)]
pub struct FreeUserHandleReply {
    pub header: ReplyHeader,
}

#[derive(Clone, Copy, Debug, PartialEq, Eq, Structural, Default)]
pub struct SetCursorRequest {
    pub header: RequestHeader,
    pub flags: u32,
    pub handle: UserHandle,
    pub show_count: i32,
    pub x: i32,
    pub y: i32,
    pub clip: Rect,
}

#[derive(Clone, Copy, Debug, PartialEq, Eq, Structural, Default)]
pub struct SetCursorReply {
    pub header: ReplyHeader,
    pub prev_handle: UserHandle,
    pub prev_count: i32,
    pub prev_x: i32,
    pub prev_y: i32,
    pub new_x: i32,
    pub new_y: i32,
    pub new_clip: Rect,
    pub last_change: u32,
}

#[derive(Clone, Copy, Debug, PartialEq, Eq, Structural, Default)]
pub struct GetCursorHistoryRequest {
    pub header: RequestHeader,
}

#[derive(Clone, Copy, Debug, PartialEq, Eq, Structural, Default)]
pub struct GetCursorHistoryReply {
    pub header: ReplyHeader,
}

#[derive(Clone, Copy, Debug, PartialEq, Eq, Structural, Default)]
pub struct GetRawinputBufferRequest {
    pub header: RequestHeader,
    pub header_size: DataSize,
    pub read_data: i32,
}

#[derive(Clone, Copy, Debug, PartialEq, Eq, Structural, Default)]
pub struct GetRawinputBufferReply {
    pub header: ReplyHeader,
    pub next_size: DataSize,
    pub count: u32,
}

#[derive(Clone, Copy, Debug, PartialEq, Eq, Structural, Default)]
pub struct UpdateRawinputDevicesRequest {
    pub header: RequestHeader,
}

#[derive(Clone, Copy, Debug, PartialEq, Eq, Structural, Default)]
pub struct UpdateRawinputDevicesReply {
    pub header: ReplyHeader,
}

#[derive(Clone, Copy, Debug, PartialEq, Eq, Structural, Default)]
pub struct CreateJobRequest {
    pub header: RequestHeader,
    pub access: u32,
}

#[derive(Clone, Copy, Debug, PartialEq, Eq, Structural, Default)]
pub struct CreateJobReply {
    pub header: ReplyHeader,
    pub handle: ObjHandle,
}

#[derive(Clone, Copy, Debug, PartialEq, Eq, Structural, Default)]
pub struct OpenJobRequest {
    pub header: RequestHeader,
    pub access: u32,
    pub attributes: u32,
    pub rootdir: ObjHandle,
}

#[derive(Clone, Copy, Debug, PartialEq, Eq, Structural, Default)]
pub struct OpenJobReply {
    pub header: ReplyHeader,
    pub handle: ObjHandle,
}

#[derive(Clone, Copy, Debug, PartialEq, Eq, Structural, Default)]
pub struct AssignJobRequest {
    pub header: RequestHeader,
    pub job: ObjHandle,
    pub process: ObjHandle,
}

#[derive(Clone, Copy, Debug, PartialEq, Eq, Structural, Default)]
pub struct AssignJobReply {
    pub header: ReplyHeader,
}

#[derive(Clone, Copy, Debug, PartialEq, Eq, Structural, Default)]
pub struct ProcessInJobRequest {
    pub header: RequestHeader,
    pub job: ObjHandle,
    pub process: ObjHandle,
}

#[derive(Clone, Copy, Debug, PartialEq, Eq, Structural, Default)]
pub struct ProcessInJobReply {
    pub header: ReplyHeader,
}

#[derive(Clone, Copy, Debug, PartialEq, Eq, Structural, Default)]
pub struct SetJobLimitsRequest {
    pub header: RequestHeader,
    pub handle: ObjHandle,
    pub limit_flags: u32,
}

#[derive(Clone, Copy, Debug, PartialEq, Eq, Structural, Default)]
pub struct SetJobLimitsReply {
    pub header: ReplyHeader,
}

#[derive(Clone, Copy, Debug, PartialEq, Eq, Structural, Default)]
pub struct SetJobCompletionPortRequest {
    pub header: RequestHeader,
    pub job: ObjHandle,
    pub port: ObjHandle,
    pub key: ClientPtr,
}

#[derive(Clone, Copy, Debug, PartialEq, Eq, Structural, Default)]
pub struct SetJobCompletionPortReply {
    pub header: ReplyHeader,
}

#[derive(Clone, Copy, Debug, PartialEq, Eq, Structural, Default)]
pub struct GetJobInfoRequest {
    pub header: RequestHeader,
    pub handle: ObjHandle,
}

#[derive(Clone, Copy, Debug, PartialEq, Eq, Structural, Default)]
pub struct GetJobInfoReply {
    pub header: ReplyHeader,
    pub total_processes: i32,
    pub active_processes: i32,
}

#[derive(Clone, Copy, Debug, PartialEq, Eq, Structural, Default)]
pub struct TerminateJobRequest {
    pub header: RequestHeader,
    pub handle: ObjHandle,
    pub status: i32,
}

#[derive(Clone, Copy, Debug, PartialEq, Eq, Structural, Default)]
pub struct TerminateJobReply {
    pub header: ReplyHeader,
}

#[derive(Clone, Copy, Debug, PartialEq, Eq, Structural, Default)]
pub struct SuspendProcessRequest {
    pub header: RequestHeader,
    pub handle: ObjHandle,
}

#[derive(Clone, Copy, Debug, PartialEq, Eq, Structural, Default)]
pub struct SuspendProcessReply {
    pub header: ReplyHeader,
}

#[derive(Clone, Copy, Debug, PartialEq, Eq, Structural, Default)]
pub struct ResumeProcessRequest {
    pub header: RequestHeader,
    pub handle: ObjHandle,
}

#[derive(Clone, Copy, Debug, PartialEq, Eq, Structural, Default)]
pub struct ResumeProcessReply {
    pub header: ReplyHeader,
}

#[derive(Clone, Copy, Debug, PartialEq, Eq, Structural, Default)]
pub struct GetNextThreadRequest {
    pub header: RequestHeader,
    pub process: ObjHandle,
    pub last: ObjHandle,
    pub access: u32,
    pub attributes: u32,
    pub flags: u32,
}

#[derive(Clone, Copy, Debug, PartialEq, Eq, Structural, Default)]
pub struct GetNextThreadReply {
    pub header: ReplyHeader,
    pub handle: ObjHandle,
}

/// The wire opcode of each request variant.
pub open spec fn request_code(t: RequestType) -> u32 {
    match t {
        RequestType::NewProcess => 0u32,
        RequestType::GetNewProcessInfo => 1u32,
        RequestType::NewThread => 2u32,
        RequestType::GetStartupInfo => 3u32,
        RequestType::InitProcessDone => 4u32,
        RequestType::InitFirstThread => 5u32,
        RequestType::InitThread => 6u32,
        RequestType::TerminateProcess => 7u32,
        RequestType::TerminateThread => 8u32,
        RequestType::GetProcessInfo => 9u32,
        RequestType::GetProcessDebugInfo => 10u32,
        RequestType::GetProcessImageName => 11u32,
        RequestType::GetProcessVmCounters => 12u32,
        RequestType::SetProcessInfo => 13u32,
        RequestType::GetThreadInfo => 14u32,
        RequestType::GetThreadTimes => 15u32,
        RequestType::SetThreadInfo => 16u32,
        RequestType::SuspendThread => 17u32,
        RequestType::ResumeThread => 18u32,
        RequestType::QueueApc => 19u32,
        RequestType::GetApcResult => 20u32,
        RequestType::CloseHandle => 21u32,
        RequestType::SetHandleInfo => 22u32,
        RequestType::DupHandle => 23u32,
        RequestType::CompareObjects => 24u32,
        RequestType::MakeTemporary => 25u32,
        RequestType::OpenProcess => 26u32,
        RequestType::OpenThread => 27u32,
        RequestType::Select => 28u32,
        RequestType::CreateEvent => 29u32,
        RequestType::EventOp => 30u32,
        RequestType::QueryEvent => 31u32,
        RequestType::OpenEvent => 32u32,
        RequestType::CreateKeyedEvent => 33u32,
        RequestType::OpenKeyedEvent => 34u32,
        RequestType::CreateMutex => 35u32,
        RequestType::ReleaseMutex => 36u32,
        RequestType::OpenMutex => 37u32,
        RequestType::QueryMutex => 38u32,
        RequestType::CreateSemaphore => 39u32,
        RequestType::ReleaseSemaphore => 40u32,
        RequestType::QuerySemaphore => 41u32,
        RequestType::OpenSemaphore => 42u32,
        RequestType::CreateFile => 43u32,
        RequestType::OpenFileObject => 44u32,
        RequestType::AllocFileHandle => 45u32,
        RequestType::GetHandleUnixName => 46u32,
        RequestType::GetHandleFd => 47u32,
        RequestType::GetDirectoryCacheEntry => 48u32,
        RequestType::Flush => 49u32,
        RequestType::GetFileInfo => 50u32,
        RequestType::GetVolumeInfo => 51u32,
        RequestType::LockFile => 52u32,
        RequestType::UnlockFile => 53u32,
        RequestType::RecvSocket => 54u32,
        RequestType::SendSocket => 55u32,
        RequestType::SocketGetEvents => 56u32,
        RequestType::SocketSendIcmpId => 57u32,
        RequestType::SocketGetIcmpId => 58u32,
        RequestType::GetNextConsoleRequest => 59u32,
        RequestType::ReadDirectoryChanges => 60u32,
        RequestType::ReadChange => 61u32,
        RequestType::CreateMapping => 62u32,
        RequestType::OpenMapping => 63u32,
        RequestType::GetMappingInfo => 64u32,
        RequestType::GetImageMapAddress => 65u32,
        RequestType::MapView => 66u32,
        RequestType::MapImageView => 67u32,
        RequestType::MapBuiltinView => 68u32,
        RequestType::GetImageViewInfo => 69u32,
        RequestType::UnmapView => 70u32,
        RequestType::GetMappingCommittedRange => 71u32,
        RequestType::AddMappingCommittedRange => 72u32,
        RequestType::IsSameMapping => 73u32,
        RequestType::GetMappingFilename => 74u32,
        RequestType::ListProcesses => 75u32,
        RequestType::CreateDebugObj => 76u32,
        RequestType::WaitDebugEvent => 77u32,
        RequestType::QueueExceptionEvent => 78u32,
        RequestType::GetExceptionStatus => 79u32,
        RequestType::ContinueDebugEvent => 80u32,
        RequestType::DebugProcess => 81u32,
        RequestType::SetDebugObjInfo => 82u32,
        RequestType::ReadProcessMemory => 83u32,
        RequestType::WriteProcessMemory => 84u32,
        RequestType::CreateKey => 85u32,
        RequestType::OpenKey => 86u32,
        RequestType::DeleteKey => 87u32,
        RequestType::FlushKey => 88u32,
        RequestType::EnumKey => 89u32,
        RequestType::SetKeyValue => 90u32,
        RequestType::GetKeyValue => 91u32,
        RequestType::EnumKeyValue => 92u32,
        RequestType::DeleteKeyValue => 93u32,
        RequestType::LoadRegistry => 94u32,
        RequestType::UnloadRegistry => 95u32,
        RequestType::SaveRegistry => 96u32,
        RequestType::SetRegistryNotification => 97u32,
        RequestType::RenameKey => 98u32,
        RequestType::CreateTimer => 99u32,
        RequestType::OpenTimer => 100u32,
        RequestType::SetTimer => 101u32,
        RequestType::CancelTimer => 102u32,
        RequestType::GetTimerInfo => 103u32,
        RequestType::GetThreadContext => 104u32,
        RequestType::SetThreadContext => 105u32,
        RequestType::GetSelectorEntry => 106u32,
        RequestType::AddAtom => 107u32,
        RequestType::DeleteAtom => 108u32,
        RequestType::FindAtom => 109u32,
        RequestType::GetAtomInformation => 110u32,
        RequestType::GetMsgQueue => 111u32,
        RequestType::SetQueueFd => 112u32,
        RequestType::SetQueueMask => 113u32,
        RequestType::GetQueueStatus => 114u32,
        RequestType::GetProcessIdleEvent => 115u32,
        RequestType::SendMessage => 116u32,
        RequestType::PostQuitMessage => 117u32,
        RequestType::SendHardwareMessage => 118u32,
        RequestType::GetMessage => 119u32,
        RequestType::ReplyMessage => 120u32,
        RequestType::AcceptHardwareMessage => 121u32,
        RequestType::GetMessageReply => 122u32,
        RequestType::SetWinTimer => 123u32,
        RequestType::KillWinTimer => 124u32,
        RequestType::IsWindowHung => 125u32,
        RequestType::GetSerialInfo => 126u32,
        RequestType::SetSerialInfo => 127u32,
        RequestType::CancelSync => 128u32,
        RequestType::RegisterAsync => 129u32,
        RequestType::CancelAsync => 130u32,
        RequestType::GetAsyncResult => 131u32,
        RequestType::SetAsyncDirectResult => 132u32,
        RequestType::Read => 133u32,
        RequestType::Write => 134u32,
        RequestType::Ioctl => 135u32,
        RequestType::SetIrpResult => 136u32,
        RequestType::CreateNamedPipe => 137u32,
        RequestType::SetNamedPipeInfo => 138u32,
        RequestType::CreateWindow => 139u32,
        RequestType::DestroyWindow => 140u32,
        RequestType::GetDesktopWindow => 141u32,
        RequestType::SetWindowOwner => 142u32,
        RequestType::GetWindowInfo => 143u32,
        RequestType::SetWindowInfo => 144u32,
        RequestType::SetParent => 145u32,
        RequestType::GetWindowParents => 146u32,
        RequestType::GetWindowChildren => 147u32,
        RequestType::GetWindowChildrenFromPoint => 148u32,
        RequestType::GetWindowTree => 149u32,
        RequestType::SetWindowPos => 150u32,
        RequestType::GetWindowRectangles => 151u32,
        RequestType::GetWindowText => 152u32,
        RequestType::SetWindowText => 153u32,
        RequestType::GetWindowsOffset => 154u32,
        RequestType::GetVisibleRegion => 155u32,
        RequestType::GetSurfaceRegion => 156u32,
        RequestType::GetWindowRegion => 157u32,
        RequestType::SetWindowRegion => 158u32,
        RequestType::GetUpdateRegion => 159u32,
        RequestType::UpdateWindowZorder => 160u32,
        RequestType::RedrawWindow => 161u32,
        RequestType::SetWindowProperty => 162u32,
        RequestType::RemoveWindowProperty => 163u32,
        RequestType::GetWindowProperty => 164u32,
        RequestType::GetWindowProperties => 165u32,
        RequestType::CreateWinstation => 166u32,
        RequestType::OpenWinstation => 167u32,
        RequestType::CloseWinstation => 168u32,
        RequestType::GetProcessWinstation => 169u32,
        RequestType::SetProcessWinstation => 170u32,
        RequestType::EnumWinstation => 171u32,
        RequestType::CreateDesktop => 172u32,
        RequestType::OpenDesktop => 173u32,
        RequestType::OpenInputDesktop => 174u32,
        RequestType::CloseDesktop => 175u32,
        RequestType::GetThreadDesktop => 176u32,
        RequestType::SetThreadDesktop => 177u32,
        RequestType::EnumDesktop => 178u32,
        RequestType::SetUserObjectInfo => 179u32,
        RequestType::RegisterHotkey => 180u32,
        RequestType::UnregisterHotkey => 181u32,
        RequestType::AttachThreadInput => 182u32,
        RequestType::GetThreadInput => 183u32,
        RequestType::GetLastInputTime => 184u32,
        RequestType::GetKeyState => 185u32,
        RequestType::SetKeyState => 186u32,
        RequestType::SetForegroundWindow => 187u32,
        RequestType::SetFocusWindow => 188u32,
        RequestType::SetActiveWindow => 189u32,
        RequestType::SetCaptureWindow => 190u32,
        RequestType::SetCaretWindow => 191u32,
        RequestType::SetCaretInfo => 192u32,
        RequestType::SetHook => 193u32,
        RequestType::RemoveHook => 194u32,
        RequestType::StartHookChain => 195u32,
        RequestType::FinishHookChain => 196u32,
        RequestType::GetHookInfo => 197u32,
        RequestType::CreateClass => 198u32,
        RequestType::DestroyClass => 199u32,
        RequestType::SetClassInfo => 200u32,
        RequestType::OpenClipboard => 201u32,
        RequestType::CloseClipboard => 202u32,
        RequestType::EmptyClipboard => 203u32,
        RequestType::SetClipboardData => 204u32,
        RequestType::GetClipboardData => 205u32,
        RequestType::GetClipboardFormats => 206u32,
        RequestType::EnumClipboardFormats => 207u32,
        RequestType::ReleaseClipboard => 208u32,
        RequestType::GetClipboardInfo => 209u32,
        RequestType::SetClipboardViewer => 210u32,
        RequestType::AddClipboardListener => 211u32,
        RequestType::RemoveClipboardListener => 212u32,
        RequestType::CreateToken => 213u32,
        RequestType::OpenToken => 214u32,
        RequestType::SetGlobalWindows => 215u32,
        RequestType::AdjustTokenPrivileges => 216u32,
        RequestType::GetTokenPrivileges => 217u32,
        RequestType::CheckTokenPrivileges => 218u32,
        RequestType::DuplicateToken => 219u32,
        RequestType::FilterToken => 220u32,
        RequestType::AccessCheck => 221u32,
        RequestType::GetTokenSid => 222u32,
        RequestType::GetTokenGroups => 223u32,
        RequestType::GetTokenDefaultDacl => 224u32,
        RequestType::SetTokenDefaultDacl => 225u32,
        RequestType::SetSecurityObject => 226u32,
        RequestType::GetSecurityObject => 227u32,
        RequestType::GetSystemHandles => 228u32,
        RequestType::CreateMailslot => 229u32,
        RequestType::SetMailslotInfo => 230u32,
        RequestType::CreateDirectory => 231u32,
        RequestType::OpenDirectory => 232u32,
        RequestType::GetDirectoryEntry => 233u32,
        RequestType::CreateSymlink => 234u32,
        RequestType::OpenSymlink => 235u32,
        RequestType::QuerySymlink => 236u32,
        RequestType::GetObjectInfo => 237u32,
        RequestType::GetObjectName => 238u32,
        RequestType::GetObjectType => 239u32,
        RequestType::GetObjectTypes => 240u32,
        RequestType::AllocateLocallyUniqueId => 241u32,
        RequestType::CreateDeviceManager => 242u32,
        RequestType::CreateDevice => 243u32,
        RequestType::DeleteDevice => 244u32,
        RequestType::GetNextDeviceRequest => 245u32,
        RequestType::GetKernelObjectPtr => 246u32,
        RequestType::SetKernelObjectPtr => 247u32,
        RequestType::GrabKernelObject => 248u32,
        RequestType::ReleaseKernelObject => 249u32,
        RequestType::GetKernelObjectHandle => 250u32,
        RequestType::MakeProcessSystem => 251u32,
        RequestType::GetTokenInfo => 252u32,
        RequestType::CreateLinkedToken => 253u32,
        RequestType::CreateCompletion => 254u32,
        RequestType::OpenCompletion => 255u32,
        RequestType::AddCompletion => 256u32,
        RequestType::RemoveCompletion => 257u32,
        RequestType::QueryCompletion => 258u32,
        RequestType::SetCompletionInfo => 259u32,
        RequestType::AddFdCompletion => 260u32,
        RequestType::SetFdCompletionMode => 261u32,
        RequestType::SetFdDispInfo => 262u32,
        RequestType::SetFdNameInfo => 263u32,
        RequestType::SetFdEofInfo => 264u32,
        RequestType::GetWindowLayeredInfo => 265u32,
        RequestType::SetWindowLayeredInfo => 266u32,
        RequestType::AllocUserHandle => 267u32,
        RequestType::FreeUserHandle => 268u32,
        RequestType::SetCursor => 269u32,
        RequestType::GetCursorHistory => 270u32,
        RequestType::GetRawinputBuffer => 271u32,
        RequestType::UpdateRawinputDevices => 272u32,
        RequestType::CreateJob => 273u32,
        RequestType::OpenJob => 274u32,
        RequestType::AssignJob => 275u32,
        RequestType::ProcessInJob => 276u32,
        RequestType::SetJobLimits => 277u32,
        RequestType::SetJobCompletionPort => 278u32,
        RequestType::GetJobInfo => 279u32,
        RequestType::TerminateJob => 280u32,
        RequestType::SuspendProcess => 281u32,
        RequestType::ResumeProcess => 282u32,
        RequestType::GetNextThread => 283u32,
    }
}

pub fn code_of_request(t: RequestType) -> (c: u32)
    ensures
        c == request_code(t),
{
    match t {
        RequestType::NewProcess => 0u32,
        RequestType::GetNewProcessInfo => 1u32,
        RequestType::NewThread => 2u32,
        RequestType::GetStartupInfo => 3u32,
        RequestType::InitProcessDone => 4u32,
        RequestType::InitFirstThread => 5u32,
        RequestType::InitThread => 6u32,
        RequestType::TerminateProcess => 7u32,
        RequestType::TerminateThread => 8u32,
        RequestType::GetProcessInfo => 9u32,
        RequestType::GetProcessDebugInfo => 10u32,
        RequestType::GetProcessImageName => 11u32,
        RequestType::GetProcessVmCounters => 12u32,
        RequestType::SetProcessInfo => 13u32,
        RequestType::GetThreadInfo => 14u32,
        RequestType::GetThreadTimes => 15u32,
        RequestType::SetThreadInfo => 16u32,
        RequestType::SuspendThread => 17u32,
        RequestType::ResumeThread => 18u32,
        RequestType::QueueApc => 19u32,
        RequestType::GetApcResult => 20u32,
        RequestType::CloseHandle => 21u32,
        RequestType::SetHandleInfo => 22u32,
        RequestType::DupHandle => 23u32,
        RequestType::CompareObjects => 24u32,
        RequestType::MakeTemporary => 25u32,
        RequestType::OpenProcess => 26u32,
        RequestType::OpenThread => 27u32,
        RequestType::Select => 28u32,
        RequestType::CreateEvent => 29u32,
        RequestType::EventOp => 30u32,
        RequestType::QueryEvent => 31u32,
        RequestType::OpenEvent => 32u32,
        RequestType::CreateKeyedEvent => 33u32,
        RequestType::OpenKeyedEvent => 34u32,
        RequestType::CreateMutex => 35u32,
        RequestType::ReleaseMutex => 36u32,
        RequestType::OpenMutex => 37u32,
        RequestType::QueryMutex => 38u32,
        RequestType::CreateSemaphore => 39u32,
        RequestType::ReleaseSemaphore => 40u32,
        RequestType::QuerySemaphore => 41u32,
        RequestType::OpenSemaphore => 42u32,
        RequestType::CreateFile => 43u32,
        RequestType::OpenFileObject => 44u32,
        RequestType::AllocFileHandle => 45u32,
        RequestType::GetHandleUnixName => 46u32,
        RequestType::GetHandleFd => 47u32,
        RequestType::GetDirectoryCacheEntry => 48u32,
        RequestType::Flush => 49u32,
        RequestType::GetFileInfo => 50u32,
        RequestType::GetVolumeInfo => 51u32,
        RequestType::LockFile => 52u32,
        RequestType::UnlockFile => 53u32,
        RequestType::RecvSocket => 54u32,
        RequestType::SendSocket => 55u32,
        RequestType::SocketGetEvents => 56u32,
        RequestType::SocketSendIcmpId => 57u32,
        RequestType::SocketGetIcmpId => 58u32,
        RequestType::GetNextConsoleRequest => 59u32,
        RequestType::ReadDirectoryChanges => 60u32,
        RequestType::ReadChange => 61u32,
        RequestType::CreateMapping => 62u32,
        RequestType::OpenMapping => 63u32,
        RequestType::GetMappingInfo => 64u32,
        RequestType::GetImageMapAddress => 65u32,
        RequestType::MapView => 66u32,
        RequestType::MapImageView => 67u32,
        RequestType::MapBuiltinView => 68u32,
        RequestType::GetImageViewInfo => 69u32,
        RequestType::UnmapView => 70u32,
        RequestType::GetMappingCommittedRange => 71u32,
        RequestType::AddMappingCommittedRange => 72u32,
        RequestType::IsSameMapping => 73u32,
        RequestType::GetMappingFilename => 74u32,
        RequestType::ListProcesses => 75u32,
        RequestType::CreateDebugObj => 76u32,
        RequestType::WaitDebugEvent => 77u32,
        RequestType::QueueExceptionEvent => 78u32,
        RequestType::GetExceptionStatus => 79u32,
        RequestType::ContinueDebugEvent => 80u32,
        RequestType::DebugProcess => 81u32,
        RequestType::SetDebugObjInfo => 82u32,
        RequestType::ReadProcessMemory => 83u32,
        RequestType::WriteProcessMemory => 84u32,
        RequestType::CreateKey => 85u32,
        RequestType::OpenKey => 86u32,
        RequestType::DeleteKey => 87u32,
        RequestType::FlushKey => 88u32,
        RequestType::EnumKey => 89u32,
        RequestType::SetKeyValue => 90u32,
        RequestType::GetKeyValue => 91u32,
        RequestType::EnumKeyValue => 92u32,
        RequestType::DeleteKeyValue => 93u32,
        RequestType::LoadRegistry => 94u32,
        RequestType::UnloadRegistry => 95u32,
        RequestType::SaveRegistry => 96u32,
        RequestType::SetRegistryNotification => 97u32,
        RequestType::RenameKey => 98u32,
        RequestType::CreateTimer => 99u32,
        RequestType::OpenTimer => 100u32,
        RequestType::SetTimer => 101u32,
        RequestType::CancelTimer => 102u32,
        RequestType::GetTimerInfo => 103u32,
        RequestType::GetThreadContext => 104u32,
        RequestType::SetThreadContext => 105u32,
        RequestType::GetSelectorEntry => 106u32,
        RequestType::AddAtom => 107u32,
        RequestType::DeleteAtom => 108u32,
        RequestType::FindAtom => 109u32,
        RequestType::GetAtomInformation => 110u32,
        RequestType::GetMsgQueue => 111u32,
        RequestType::SetQueueFd => 112u32,
        RequestType::SetQueueMask => 113u32,
        RequestType::GetQueueStatus => 114u32,
        RequestType::GetProcessIdleEvent => 115u32,
        RequestType::SendMessage => 116u32,
        RequestType::PostQuitMessage => 117u32,
        RequestType::SendHardwareMessage => 118u32,
        RequestType::GetMessage => 119u32,
        RequestType::ReplyMessage => 120u32,
        RequestType::AcceptHardwareMessage => 121u32,
        RequestType::GetMessageReply => 122u32,
        RequestType::SetWinTimer => 123u32,
        RequestType::KillWinTimer => 124u32,
        RequestType::IsWindowHung => 125u32,
        RequestType::GetSerialInfo => 126u32,
        RequestType::SetSerialInfo => 127u32,
        RequestType::CancelSync => 128u32,
        RequestType::RegisterAsync => 129u32,
        RequestType::CancelAsync => 130u32,
        RequestType::GetAsyncResult => 131u32,
        RequestType::SetAsyncDirectResult => 132u32,
        RequestType::Read => 133u32,
        RequestType::Write => 134u32,
        RequestType::Ioctl => 135u32,
        RequestType::SetIrpResult => 136u32,
        RequestType::CreateNamedPipe => 137u32,
        RequestType::SetNamedPipeInfo => 138u32,
        RequestType::CreateWindow => 139u32,
        RequestType::DestroyWindow => 140u32,
        RequestType::GetDesktopWindow => 141u32,
        RequestType::SetWindowOwner => 142u32,
        RequestType::GetWindowInfo => 143u32,
        RequestType::SetWindowInfo => 144u32,
        RequestType::SetParent => 145u32,
        RequestType::GetWindowParents => 146u32,
        RequestType::GetWindowChildren => 147u32,
        RequestType::GetWindowChildrenFromPoint => 148u32,
        RequestType::GetWindowTree => 149u32,
        RequestType::SetWindowPos => 150u32,
        RequestType::GetWindowRectangles => 151u32,
        RequestType::GetWindowText => 152u32,
        RequestType::SetWindowText => 153u32,
        RequestType::GetWindowsOffset => 154u32,
        RequestType::GetVisibleRegion => 155u32,
        RequestType::GetSurfaceRegion => 156u32,
        RequestType::GetWindowRegion => 157u32,
        RequestType::SetWindowRegion => 158u32,
        RequestType::GetUpdateRegion => 159u32,
        RequestType::UpdateWindowZorder => 160u32,
        RequestType::RedrawWindow => 161u32,
        RequestType::SetWindowProperty => 162u32,
        RequestType::RemoveWindowProperty => 163u32,
        RequestType::GetWindowProperty => 164u32,
        RequestType::GetWindowProperties => 165u32,
        RequestType::CreateWinstation => 166u32,
        RequestType::OpenWinstation => 167u32,
        RequestType::CloseWinstation => 168u32,
        RequestType::GetProcessWinstation => 169u32,
        RequestType::SetProcessWinstation => 170u32,
        RequestType::EnumWinstation => 171u32,
        RequestType::CreateDesktop => 172u32,
        RequestType::OpenDesktop => 173u32,
        RequestType::OpenInputDesktop => 174u32,
        RequestType::CloseDesktop => 175u32,
        RequestType::GetThreadDesktop => 176u32,
        RequestType::SetThreadDesktop => 177u32,
        RequestType::EnumDesktop => 178u32,
        RequestType::SetUserObjectInfo => 179u32,
        RequestType::RegisterHotkey => 180u32,
        RequestType::UnregisterHotkey => 181u32,
        RequestType::AttachThreadInput => 182u32,
        RequestType::GetThreadInput => 183u32,
        RequestType::GetLastInputTime => 184u32,
        RequestType::GetKeyState => 185u32,
        RequestType::SetKeyState => 186u32,
        RequestType::SetForegroundWindow => 187u32,
        RequestType::SetFocusWindow => 188u32,
        RequestType::SetActiveWindow => 189u32,
        RequestType::SetCaptureWindow => 190u32,
        RequestType::SetCaretWindow => 191u32,
        RequestType::SetCaretInfo => 192u32,
        RequestType::SetHook => 193u32,
        RequestType::RemoveHook => 194u32,
        RequestType::StartHookChain => 195u32,
        RequestType::FinishHookChain => 196u32,
        RequestType::GetHookInfo => 197u32,
        RequestType::CreateClass => 198u32,
        RequestType::DestroyClass => 199u32,
        RequestType::SetClassInfo => 200u32,
        RequestType::OpenClipboard => 201u32,
        RequestType::CloseClipboard => 202u32,
        RequestType::EmptyClipboard => 203u32,
        RequestType::SetClipboardData => 204u32,
        RequestType::GetClipboardData => 205u32,
        RequestType::GetClipboardFormats => 206u32,
        RequestType::EnumClipboardFormats => 207u32,
        RequestType::ReleaseClipboard => 208u32,
        RequestType::GetClipboardInfo => 209u32,
        RequestType::SetClipboardViewer => 210u32,
        RequestType::AddClipboardListener => 211u32,
        RequestType::RemoveClipboardListener => 212u32,
        RequestType::CreateToken => 213u32,
        RequestType::OpenToken => 214u32,
        RequestType::SetGlobalWindows => 215u32,
        RequestType::AdjustTokenPrivileges => 216u32,
        RequestType::GetTokenPrivileges => 217u32,
        RequestType::CheckTokenPrivileges => 218u32,
        RequestType::DuplicateToken => 219u32,
        RequestType::FilterToken => 220u32,
        RequestType::AccessCheck => 221u32,
        RequestType::GetTokenSid => 222u32,
        RequestType::GetTokenGroups => 223u32,
        RequestType::GetTokenDefaultDacl => 224u32,
        RequestType::SetTokenDefaultDacl => 225u32,
        RequestType::SetSecurityObject => 226u32,
        RequestType::GetSecurityObject => 227u32,
        RequestType::GetSystemHandles => 228u32,
        RequestType::CreateMailslot => 229u32,
        RequestType::SetMailslotInfo => 230u32,
        RequestType::CreateDirectory => 231u32,
        RequestType::OpenDirectory => 232u32,
        RequestType::GetDirectoryEntry => 233u32,
        RequestType::CreateSymlink => 234u32,
        RequestType::OpenSymlink => 235u32,
        RequestType::QuerySymlink => 236u32,
        RequestType::GetObjectInfo => 237u32,
        RequestType::GetObjectName => 238u32,
        RequestType::GetObjectType => 239u32,
        RequestType::GetObjectTypes => 240u32,
        RequestType::AllocateLocallyUniqueId => 241u32,
        RequestType::CreateDeviceManager => 242u32,
        RequestType::CreateDevice => 243u32,
        RequestType::DeleteDevice => 244u32,
        RequestType::GetNextDeviceRequest => 245u32,
        RequestType::GetKernelObjectPtr => 246u32,
        RequestType::SetKernelObjectPtr => 247u32,
        RequestType::GrabKernelObject => 248u32,
        RequestType::ReleaseKernelObject => 249u32,
        RequestType::GetKernelObjectHandle => 250u32,
        RequestType::MakeProcessSystem => 251u32,
        RequestType::GetTokenInfo => 252u32,
        RequestType::CreateLinkedToken => 253u32,
        RequestType::CreateCompletion => 254u32,
        RequestType::OpenCompletion => 255u32,
        RequestType::AddCompletion => 256u32,
        RequestType::RemoveCompletion => 257u32,
        RequestType::QueryCompletion => 258u32,
        RequestType::SetCompletionInfo => 259u32,
        RequestType::AddFdCompletion => 260u32,
        RequestType::SetFdCompletionMode => 261u32,
        RequestType::SetFdDispInfo => 262u32,
        RequestType::SetFdNameInfo => 263u32,
        RequestType::SetFdEofInfo => 264u32,
        RequestType::GetWindowLayeredInfo => 265u32,
        RequestType::SetWindowLayeredInfo => 266u32,
        RequestType::AllocUserHandle => 267u32,
        RequestType::FreeUserHandle => 268u32,
        RequestType::SetCursor => 269u32,
        RequestType::GetCursorHistory => 270u32,
        RequestType::GetRawinputBuffer => 271u32,
        RequestType::UpdateRawinputDevices => 272u32,
        RequestType::CreateJob => 273u32,
        RequestType::OpenJob => 274u32,
        RequestType::AssignJob => 275u32,
        RequestType::ProcessInJob => 276u32,
        RequestType::SetJobLimits => 277u32,
        RequestType::SetJobCompletionPort => 278u32,
        RequestType::GetJobInfo => 279u32,
        RequestType::TerminateJob => 280u32,
        RequestType::SuspendProcess => 281u32,
        RequestType::ResumeProcess => 282u32,
        RequestType::GetNextThread => 283u32,
    }
}

/// Bounded-enum decoding of an opcode: codes past the last variant are refused.
pub open spec fn spec_request_from_code(c: u32) -> Option<RequestType> {
    if c == 0 { Some(RequestType::NewProcess) }
    else    if c == 1 { Some(RequestType::GetNewProcessInfo) }
    else    if c == 2 { Some(RequestType::NewThread) }
    else    if c == 3 { Some(RequestType::GetStartupInfo) }
    else    if c == 4 { Some(RequestType::InitProcessDone) }
    else    if c == 5 { Some(RequestType::InitFirstThread) }
    else    if c == 6 { Some(RequestType::InitThread) }
    else    if c == 7 { Some(RequestType::TerminateProcess) }
    else    if c == 8 { Some(RequestType::TerminateThread) }
    else    if c == 9 { Some(RequestType::GetProcessInfo) }
    else    if c == 10 { Some(RequestType::GetProcessDebugInfo) }
    else    if c == 11 { Some(RequestType::GetProcessImageName) }
    else    if c == 12 { Some(RequestType::GetProcessVmCounters) }
    else    if c == 13 { Some(RequestType::SetProcessInfo) }
    else    if c == 14 { Some(RequestType::GetThreadInfo) }
    else    if c == 15 { Some(RequestType::GetThreadTimes) }
    else    if c == 16 { Some(RequestType::SetThreadInfo) }
    else    if c == 17 { Some(RequestType::SuspendThread) }
    else    if c == 18 { Some(RequestType::ResumeThread) }
    else    if c == 19 { Some(RequestType::QueueApc) }
    else    if c == 20 { Some(RequestType::GetApcResult) }
    else    if c == 21 { Some(RequestType::CloseHandle) }
    else    if c == 22 { Some(RequestType::SetHandleInfo) }
    else    if c == 23 { Some(RequestType::DupHandle) }
    else    if c == 24 { Some(RequestType::CompareObjects) }
    else    if c == 25 { Some(RequestType::MakeTemporary) }
    else    if c == 26 { Some(RequestType::OpenProcess) }
    else    if c == 27 { Some(RequestType::OpenThread) }
    else    if c == 28 { Some(RequestType::Select) }
    else    if c == 29 { Some(RequestType::CreateEvent) }
    else    if c == 30 { Some(RequestType::EventOp) }
    else    if c == 31 { Some(RequestType::QueryEvent) }
    else    if c == 32 { Some(RequestType::OpenEvent) }
    else    if c == 33 { Some(RequestType::CreateKeyedEvent) }
    else    if c == 34 { Some(RequestType::OpenKeyedEvent) }
    else    if c == 35 { Some(RequestType::CreateMutex) }
    else    if c == 36 { Some(RequestType::ReleaseMutex) }
    else    if c == 37 { Some(RequestType::OpenMutex) }
    else    if c == 38 { Some(RequestType::QueryMutex) }
    else    if c == 39 { Some(RequestType::CreateSemaphore) }
    else    if c == 40 { Some(RequestType::ReleaseSemaphore) }
    else    if c == 41 { Some(RequestType::QuerySemaphore) }
    else    if c == 42 { Some(RequestType::OpenSemaphore) }
    else    if c == 43 { Some(RequestType::CreateFile) }
    else    if c == 44 { Some(RequestType::OpenFileObject) }
    else    if c == 45 { Some(RequestType::AllocFileHandle) }
    else    if c == 46 { Some(RequestType::GetHandleUnixName) }
    else    if c == 47 { Some(RequestType::GetHandleFd) }
    else    if c == 48 { Some(RequestType::GetDirectoryCacheEntry) }
    else    if c == 49 { Some(RequestType::Flush) }
    else    if c == 50 { Some(RequestType::GetFileInfo) }
    else    if c == 51 { Some(RequestType::GetVolumeInfo) }
    else    if c == 52 { Some(RequestType::LockFile) }
    else    if c == 53 { Some(RequestType::UnlockFile) }
    else    if c == 54 { Some(RequestType::RecvSocket) }
    else    if c == 55 { Some(RequestType::SendSocket) }
    else    if c == 56 { Some(RequestType::SocketGetEvents) }
    else    if c == 57 { Some(RequestType::SocketSendIcmpId) }
    else    if c == 58 { Some(RequestType::SocketGetIcmpId) }
    else    if c == 59 { Some(RequestType::GetNextConsoleRequest) }
    else    if c == 60 { Some(RequestType::ReadDirectoryChanges) }
    else    if c == 61 { Some(RequestType::ReadChange) }
    else    if c == 62 { Some(RequestType::CreateMapping) }
    else    if c == 63 { Some(RequestType::OpenMapping) }
    else    if c == 64 { Some(RequestType::GetMappingInfo) }
    else    if c == 65 { Some(RequestType::GetImageMapAddress) }
    else    if c == 66 { Some(RequestType::MapView) }
    else    if c == 67 { Some(RequestType::MapImageView) }
    else    if c == 68 { Some(RequestType::MapBuiltinView) }
    else    if c == 69 { Some(RequestType::GetImageViewInfo) }
    else    if c == 70 { Some(RequestType::UnmapView) }
    else    if c == 71 { Some(RequestType::GetMappingCommittedRange) }
    else    if c == 72 { Some(RequestType::AddMappingCommittedRange) }
    else    if c == 73 { Some(RequestType::IsSameMapping) }
    else    if c == 74 { Some(RequestType::GetMappingFilename) }
    else    if c == 75 { Some(RequestType::ListProcesses) }
    else    if c == 76 { Some(RequestType::CreateDebugObj) }
    else    if c == 77 { Some(RequestType::WaitDebugEvent) }
    else    if c == 78 { Some(RequestType::QueueExceptionEvent) }
    else    if c == 79 { Some(RequestType::GetExceptionStatus) }
    else    if c == 80 { Some(RequestType::ContinueDebugEvent) }
    else    if c == 81 { Some(RequestType::DebugProcess) }
    else    if c == 82 { Some(RequestType::SetDebugObjInfo) }
    else    if c == 83 { Some(RequestType::ReadProcessMemory) }
    else    if c == 84 { Some(RequestType::WriteProcessMemory) }
    else    if c == 85 { Some(RequestType::CreateKey) }
    else    if c == 86 { Some(RequestType::OpenKey) }
    else    if c == 87 { Some(RequestType::DeleteKey) }
    else    if c == 88 { Some(RequestType::FlushKey) }
    else    if c == 89 { Some(RequestType::EnumKey) }
    else    if c == 90 { Some(RequestType::SetKeyValue) }
    else    if c == 91 { Some(RequestType::GetKeyValue) }
    else    if c == 92 { Some(RequestType::EnumKeyValue) }
    else    if c == 93 { Some(RequestType::DeleteKeyValue) }
    else    if c == 94 { Some(RequestType::LoadRegistry) }
    else    if c == 95 { Some(RequestType::UnloadRegistry) }
    else    if c == 96 { Some(RequestType::SaveRegistry) }
    else    if c == 97 { Some(RequestType::SetRegistryNotification) }
    else    if c == 98 { Some(RequestType::RenameKey) }
    else    if c == 99 { Some(RequestType::CreateTimer) }
    else    if c == 100 { Some(RequestType::OpenTimer) }
    else    if c == 101 { Some(RequestType::SetTimer) }
    else    if c == 102 { Some(RequestType::CancelTimer) }
    else    if c == 103 { Some(RequestType::GetTimerInfo) }
    else    if c == 104 { Some(RequestType::GetThreadContext) }
    else    if c == 105 { Some(RequestType::SetThreadContext) }
    else    if c == 106 { Some(RequestType::GetSelectorEntry) }
    else    if c == 107 { Some(RequestType::AddAtom) }
    else    if c == 108 { Some(RequestType::DeleteAtom) }
    else    if c == 109 { Some(RequestType::FindAtom) }
    else    if c == 110 { Some(RequestType::GetAtomInformation) }
    else    if c == 111 { Some(RequestType::GetMsgQueue) }
    else    if c == 112 { Some(RequestType::SetQueueFd) }
    else    if c == 113 { Some(RequestType::SetQueueMask) }
    else    if c == 114 { Some(RequestType::GetQueueStatus) }
    else    if c == 115 { Some(RequestType::GetProcessIdleEvent) }
    else    if c == 116 { Some(RequestType::SendMessage) }
    else    if c == 117 { Some(RequestType::PostQuitMessage) }
    else    if c == 118 { Some(RequestType::SendHardwareMessage) }
    else    if c == 119 { Some(RequestType::GetMessage) }
    else    if c == 120 { Some(RequestType::ReplyMessage) }
    else    if c == 121 { Some(RequestType::AcceptHardwareMessage) }
    else    if c == 122 { Some(RequestType::GetMessageReply) }
    else    if c == 123 { Some(RequestType::SetWinTimer) }
    else    if c == 124 { Some(RequestType::KillWinTimer) }
    else    if c == 125 { Some(RequestType::IsWindowHung) }
    else    if c == 126 { Some(RequestType::GetSerialInfo) }
    else    if c == 127 { Some(RequestType::SetSerialInfo) }
    else    if c == 128 { Some(RequestType::CancelSync) }
    else    if c == 129 { Some(RequestType::RegisterAsync) }
    else    if c == 130 { Some(RequestType::CancelAsync) }
    else    if c == 131 { Some(RequestType::GetAsyncResult) }
    else    if c == 132 { Some(RequestType::SetAsyncDirectResult) }
    else    if c == 133 { Some(RequestType::Read) }
    else    if c == 134 { Some(RequestType::Write) }
    else    if c == 135 { Some(RequestType::Ioctl) }
    else    if c == 136 { Some(RequestType::SetIrpResult) }
    else    if c == 137 { Some(RequestType::CreateNamedPipe) }
    else    if c == 138 { Some(RequestType::SetNamedPipeInfo) }
    else    if c == 139 { Some(RequestType::CreateWindow) }
    else    if c == 140 { Some(RequestType::DestroyWindow) }
    else    if c == 141 { Some(RequestType::GetDesktopWindow) }
    else    if c == 142 { Some(RequestType::SetWindowOwner) }
    else    if c == 143 { Some(RequestType::GetWindowInfo) }
    else    if c == 144 { Some(RequestType::SetWindowInfo) }
    else    if c == 145 { Some(RequestType::SetParent) }
    else    if c == 146 { Some(RequestType::GetWindowParents) }
    else    if c == 147 { Some(RequestType::GetWindowChildren) }
    else    if c == 148 { Some(RequestType::GetWindowChildrenFromPoint) }
    else    if c == 149 { Some(RequestType::GetWindowTree) }
    else    if c == 150 { Some(RequestType::SetWindowPos) }
    else    if c == 151 { Some(RequestType::GetWindowRectangles) }
    else    if c == 152 { Some(RequestType::GetWindowText) }
    else    if c == 153 { Some(RequestType::SetWindowText) }
    else    if c == 154 { Some(RequestType::GetWindowsOffset) }
    else    if c == 155 { Some(RequestType::GetVisibleRegion) }
    else    if c == 156 { Some(RequestType::GetSurfaceRegion) }
    else    if c == 157 { Some(RequestType::GetWindowRegion) }
    else    if c == 158 { Some(RequestType::SetWindowRegion) }
    else    if c == 159 { Some(RequestType::GetUpdateRegion) }
    else    if c == 160 { Some(RequestType::UpdateWindowZorder) }
    else    if c == 161 { Some(RequestType::RedrawWindow) }
    else    if c == 162 { Some(RequestType::SetWindowProperty) }
    else    if c == 163 { Some(RequestType::RemoveWindowProperty) }
    else    if c == 164 { Some(RequestType::GetWindowProperty) }
    else    if c == 165 { Some(RequestType::GetWindowProperties) }
    else    if c == 166 { Some(RequestType::CreateWinstation) }
    else    if c == 167 { Some(RequestType::OpenWinstation) }
    else    if c == 168 { Some(RequestType::CloseWinstation) }
    else    if c == 169 { Some(RequestType::GetProcessWinstation) }
    else    if c == 170 { Some(RequestType::SetProcessWinstation) }
    else    if c == 171 { Some(RequestType::EnumWinstation) }
    else    if c == 172 { Some(RequestType::CreateDesktop) }
    else    if c == 173 { Some(RequestType::OpenDesktop) }
    else    if c == 174 { Some(RequestType::OpenInputDesktop) }
    else    if c == 175 { Some(RequestType::CloseDesktop) }
    else    if c == 176 { Some(RequestType::GetThreadDesktop) }
    else    if c == 177 { Some(RequestType::SetThreadDesktop) }
    else    if c == 178 { Some(RequestType::EnumDesktop) }
    else    if c == 179 { Some(RequestType::SetUserObjectInfo) }
    else    if c == 180 { Some(RequestType::RegisterHotkey) }
    else    if c == 181 { Some(RequestType::UnregisterHotkey) }
    else    if c == 182 { Some(RequestType::AttachThreadInput) }
    else    if c == 183 { Some(RequestType::GetThreadInput) }
    else    if c == 184 { Some(RequestType::GetLastInputTime) }
    else    if c == 185 { Some(RequestType::GetKeyState) }
    else    if c == 186 { Some(RequestType::SetKeyState) }
    else    if c == 187 { Some(RequestType::SetForegroundWindow) }
    else    if c == 188 { Some(RequestType::SetFocusWindow) }
    else    if c == 189 { Some(RequestType::SetActiveWindow) }
    else    if c == 190 { Some(RequestType::SetCaptureWindow) }
    else    if c == 191 { Some(RequestType::SetCaretWindow) }
    else    if c == 192 { Some(RequestType::SetCaretInfo) }
    else    if c == 193 { Some(RequestType::SetHook) }
    else    if c == 194 { Some(RequestType::RemoveHook) }
    else    if c == 195 { Some(RequestType::StartHookChain) }
    else    if c == 196 { Some(RequestType::FinishHookChain) }
    else    if c == 197 { Some(RequestType::GetHookInfo) }
    else    if c == 198 { Some(RequestType::CreateClass) }
    else    if c == 199 { Some(RequestType::DestroyClass) }
    else    if c == 200 { Some(RequestType::SetClassInfo) }
    else    if c == 201 { Some(RequestType::OpenClipboard) }
    else    if c == 202 { Some(RequestType::CloseClipboard) }
    else    if c == 203 { Some(RequestType::EmptyClipboard) }
    else    if c == 204 { Some(RequestType::SetClipboardData) }
    else    if c == 205 { Some(RequestType::GetClipboardData) }
    else    if c == 206 { Some(RequestType::GetClipboardFormats) }
    else    if c == 207 { Some(RequestType::EnumClipboardFormats) }
    else    if c == 208 { Some(RequestType::ReleaseClipboard) }
    else    if c == 209 { Some(RequestType::GetClipboardInfo) }
    else    if c == 210 { Some(RequestType::SetClipboardViewer) }
    else    if c == 211 { Some(RequestType::AddClipboardListener) }
    else    if c == 212 { Some(RequestType::RemoveClipboardListener) }
    else    if c == 213 { Some(RequestType::CreateToken) }
    else    if c == 214 { Some(RequestType::OpenToken) }
    else    if c == 215 { Some(RequestType::SetGlobalWindows) }
    else    if c == 216 { Some(RequestType::AdjustTokenPrivileges) }
    else    if c == 217 { Some(RequestType::GetTokenPrivileges) }
    else    if c == 218 { Some(RequestType::CheckTokenPrivileges) }
    else    if c == 219 { Some(RequestType::DuplicateToken) }
    else    if c == 220 { Some(RequestType::FilterToken) }
    else    if c == 221 { Some(RequestType::AccessCheck) }
    else    if c == 222 { Some(RequestType::GetTokenSid) }
    else    if c == 223 { Some(RequestType::GetTokenGroups) }
    else    if c == 224 { Some(RequestType::GetTokenDefaultDacl) }
    else    if c == 225 { Some(RequestType::SetTokenDefaultDacl) }
    else    if c == 226 { Some(RequestType::SetSecurityObject) }
    else    if c == 227 { Some(RequestType::GetSecurityObject) }
    else    if c == 228 { Some(RequestType::GetSystemHandles) }
    else    if c == 229 { Some(RequestType::CreateMailslot) }
    else    if c == 230 { Some(RequestType::SetMailslotInfo) }
    else    if c == 231 { Some(RequestType::CreateDirectory) }
    else    if c == 232 { Some(RequestType::OpenDirectory) }
    else    if c == 233 { Some(RequestType::GetDirectoryEntry) }
    else    if c == 234 { Some(RequestType::CreateSymlink) }
    else    if c == 235 { Some(RequestType::OpenSymlink) }
    else    if c == 236 { Some(RequestType::QuerySymlink) }
    else    if c == 237 { Some(RequestType::GetObjectInfo) }
    else    if c == 238 { Some(RequestType::GetObjectName) }
    else    if c == 239 { Some(RequestType::GetObjectType) }
    else    if c == 240 { Some(RequestType::GetObjectTypes) }
    else    if c == 241 { Some(RequestType::AllocateLocallyUniqueId) }
    else    if c == 242 { Some(RequestType::CreateDeviceManager) }
    else    if c == 243 { Some(RequestType::CreateDevice) }
    else    if c == 244 { Some(RequestType::DeleteDevice) }
    else    if c == 245 { Some(RequestType::GetNextDeviceRequest) }
    else    if c == 246 { Some(RequestType::GetKernelObjectPtr) }
    else    if c == 247 { Some(RequestType::SetKernelObjectPtr) }
    else    if c == 248 { Some(RequestType::GrabKernelObject) }
    else    if c == 249 { Some(RequestType::ReleaseKernelObject) }
    else    if c == 250 { Some(RequestType::GetKernelObjectHandle) }
    else    if c == 251 { Some(RequestType::MakeProcessSystem) }
    else    if c == 252 { Some(RequestType::GetTokenInfo) }
    else    if c == 253 { Some(RequestType::CreateLinkedToken) }
    else    if c == 254 { Some(RequestType::CreateCompletion) }
    else    if c == 255 { Some(RequestType::OpenCompletion) }
    else    if c == 256 { Some(RequestType::AddCompletion) }
    else    if c == 257 { Some(RequestType::RemoveCompletion) }
    else    if c == 258 { Some(RequestType::QueryCompletion) }
    else    if c == 259 { Some(RequestType::SetCompletionInfo) }
    else    if c == 260 { Some(RequestType::AddFdCompletion) }
    else    if c == 261 { Some(RequestType::SetFdCompletionMode) }
    else    if c == 262 { Some(RequestType::SetFdDispInfo) }
    else    if c == 263 { Some(RequestType::SetFdNameInfo) }
    else    if c == 264 { Some(RequestType::SetFdEofInfo) }
    else    if c == 265 { Some(RequestType::GetWindowLayeredInfo) }
    else    if c == 266 { Some(RequestType::SetWindowLayeredInfo) }
    else    if c == 267 { Some(RequestType::AllocUserHandle) }
    else    if c == 268 { Some(RequestType::FreeUserHandle) }
    else    if c == 269 { Some(RequestType::SetCursor) }
    else    if c == 270 { Some(RequestType::GetCursorHistory) }
    else    if c == 271 { Some(RequestType::GetRawinputBuffer) }
    else    if c == 272 { Some(RequestType::UpdateRawinputDevices) }
    else    if c == 273 { Some(RequestType::CreateJob) }
    else    if c == 274 { Some(RequestType::OpenJob) }
    else    if c == 275 { Some(RequestType::AssignJob) }
    else    if c == 276 { Some(RequestType::ProcessInJob) }
    else    if c == 277 { Some(RequestType::SetJobLimits) }
    else    if c == 278 { Some(RequestType::SetJobCompletionPort) }
    else    if c == 279 { Some(RequestType::GetJobInfo) }
    else    if c == 280 { Some(RequestType::TerminateJob) }
    else    if c == 281 { Some(RequestType::SuspendProcess) }
    else    if c == 282 { Some(RequestType::ResumeProcess) }
    else    if c == 283 { Some(RequestType::GetNextThread) }
    else { None }
}

pub fn request_from_code(c: u32) -> (r: Option<RequestType>)
    ensures
        r == spec_request_from_code(c),
{
    if c == 0 { Some(RequestType::NewProcess) }
    else    if c == 1 { Some(RequestType::GetNewProcessInfo) }
    else    if c == 2 { Some(RequestType::NewThread) }
    else    if c == 3 { Some(RequestType::GetStartupInfo) }
    else    if c == 4 { Some(RequestType::InitProcessDone) }
    else    if c == 5 { Some(RequestType::InitFirstThread) }
    else    if c == 6 { Some(RequestType::InitThread) }
    else    if c == 7 { Some(RequestType::TerminateProcess) }
    else    if c == 8 { Some(RequestType::TerminateThread) }
    else    if c == 9 { Some(RequestType::GetProcessInfo) }
    else    if c == 10 { Some(RequestType::GetProcessDebugInfo) }
    else    if c == 11 { Some(RequestType::GetProcessImageName) }
    else    if c == 12 { Some(RequestType::GetProcessVmCounters) }
    else    if c == 13 { Some(RequestType::SetProcessInfo) }
    else    if c == 14 { Some(RequestType::GetThreadInfo) }
    else    if c == 15 { Some(RequestType::GetThreadTimes) }
    else    if c == 16 { Some(RequestType::SetThreadInfo) }
    else    if c == 17 { Some(RequestType::SuspendThread) }
    else    if c == 18 { Some(RequestType::ResumeThread) }
    else    if c == 19 { Some(RequestType::QueueApc) }
    else    if c == 20 { Some(RequestType::GetApcResult) }
    else    if c == 21 { Some(RequestType::CloseHandle) }
    else    if c == 22 { Some(RequestType::SetHandleInfo) }
    else    if c == 23 { Some(RequestType::DupHandle) }
    else    if c == 24 { Some(RequestType::CompareObjects) }
    else    if c == 25 { Some(RequestType::MakeTemporary) }
    else    if c == 26 { Some(RequestType::OpenProcess) }
    else    if c == 27 { Some(RequestType::OpenThread) }
    else    if c == 28 { Some(RequestType::Select) }
    else    if c == 29 { Some(RequestType::CreateEvent) }
    else    if c == 30 { Some(RequestType::EventOp) }
    else    if c == 31 { Some(RequestType::QueryEvent) }
    else    if c == 32 { Some(RequestType::OpenEvent) }
    else    if c == 33 { Some(RequestType::CreateKeyedEvent) }
    else    if c == 34 { Some(RequestType::OpenKeyedEvent) }
    else    if c == 35 { Some(RequestType::CreateMutex) }
    else    if c == 36 { Some(RequestType::ReleaseMutex) }
    else    if c == 37 { Some(RequestType::OpenMutex) }
    else    if c == 38 { Some(RequestType::QueryMutex) }
    else    if c == 39 { Some(RequestType::CreateSemaphore) }
    else    if c == 40 { Some(RequestType::ReleaseSemaphore) }
    else    if c == 41 { Some(RequestType::QuerySemaphore) }
    else    if c == 42 { Some(RequestType::OpenSemaphore) }
    else    if c == 43 { Some(RequestType::CreateFile) }
    else    if c == 44 { Some(RequestType::OpenFileObject) }
    else    if c == 45 { Some(RequestType::AllocFileHandle) }
    else    if c == 46 { Some(RequestType::GetHandleUnixName) }
    else    if c == 47 { Some(RequestType::GetHandleFd) }
    else    if c == 48 { Some(RequestType::GetDirectoryCacheEntry) }
    else    if c == 49 { Some(RequestType::Flush) }
    else    if c == 50 { Some(RequestType::GetFileInfo) }
    else    if c == 51 { Some(RequestType::GetVolumeInfo) }
    else    if c == 52 { Some(RequestType::LockFile) }
    else    if c == 53 { Some(RequestType::UnlockFile) }
    else    if c == 54 { Some(RequestType::RecvSocket) }
    else    if c == 55 { Some(RequestType::SendSocket) }
    else    if c == 56 { Some(RequestType::SocketGetEvents) }
    else    if c == 57 { Some(RequestType::SocketSendIcmpId) }
    else    if c == 58 { Some(RequestType::SocketGetIcmpId) }
    else    if c == 59 { Some(RequestType::GetNextConsoleRequest) }
    else    if c == 60 { Some(RequestType::ReadDirectoryChanges) }
    else    if c == 61 { Some(RequestType::ReadChange) }
    else    if c == 62 { Some(RequestType::CreateMapping) }
    else    if c == 63 { Some(RequestType::OpenMapping) }
    else    if c == 64 { Some(RequestType::GetMappingInfo) }
    else    if c == 65 { Some(RequestType::GetImageMapAddress) }
    else    if c == 66 { Some(RequestType::MapView) }
    else    if c == 67 { Some(RequestType::MapImageView) }
    else    if c == 68 { Some(RequestType::MapBuiltinView) }
    else    if c == 69 { Some(RequestType::GetImageViewInfo) }
    else    if c == 70 { Some(RequestType::UnmapView) }
    else    if c == 71 { Some(RequestType::GetMappingCommittedRange) }
    else    if c == 72 { Some(RequestType::AddMappingCommittedRange) }
    else    if c == 73 { Some(RequestType::IsSameMapping) }
    else    if c == 74 { Some(RequestType::GetMappingFilename) }
    else    if c == 75 { Some(RequestType::ListProcesses) }
    else    if c == 76 { Some(RequestType::CreateDebugObj) }
    else    if c == 77 { Some(RequestType::WaitDebugEvent) }
    else    if c == 78 { Some(RequestType::QueueExceptionEvent) }
    else    if c == 79 { Some(RequestType::GetExceptionStatus) }
    else    if c == 80 { Some(RequestType::ContinueDebugEvent) }
    else    if c == 81 { Some(RequestType::DebugProcess) }
    else    if c == 82 { Some(RequestType::SetDebugObjInfo) }
    else    if c == 83 { Some(RequestType::ReadProcessMemory) }
    else    if c == 84 { Some(RequestType::WriteProcessMemory) }
    else    if c == 85 { Some(RequestType::CreateKey) }
    else    if c == 86 { Some(RequestType::OpenKey) }
    else    if c == 87 { Some(RequestType::DeleteKey) }
    else    if c == 88 { Some(RequestType::FlushKey) }
    else    if c == 89 { Some(RequestType::EnumKey) }
    else    if c == 90 { Some(RequestType::SetKeyValue) }
    else    if c == 91 { Some(RequestType::GetKeyValue) }
    else    if c == 92 { Some(RequestType::EnumKeyValue) }
    else    if c == 93 { Some(RequestType::DeleteKeyValue) }
    else    if c == 94 { Some(RequestType::LoadRegistry) }
    else    if c == 95 { Some(RequestType::UnloadRegistry) }
    else    if c == 96 { Some(RequestType::SaveRegistry) }
    else    if c == 97 { Some(RequestType::SetRegistryNotification) }
    else    if c == 98 { Some(RequestType::RenameKey) }
    else    if c == 99 { Some(RequestType::CreateTimer) }
    else    if c == 100 { Some(RequestType::OpenTimer) }
    else    if c == 101 { Some(RequestType::SetTimer) }
    else    if c == 102 { Some(RequestType::CancelTimer) }
    else    if c == 103 { Some(RequestType::GetTimerInfo) }
    else    if c == 104 { Some(RequestType::GetThreadContext) }
    else    if c == 105 { Some(RequestType::SetThreadContext) }
    else    if c == 106 { Some(RequestType::GetSelectorEntry) }
    else    if c == 107 { Some(RequestType::AddAtom) }
    else    if c == 108 { Some(RequestType::DeleteAtom) }
    else    if c == 109 { Some(RequestType::FindAtom) }
    else    if c == 110 { Some(RequestType::GetAtomInformation) }
    else    if c == 111 { Some(RequestType::GetMsgQueue) }
    else    if c == 112 { Some(RequestType::SetQueueFd) }
    else    if c == 113 { Some(RequestType::SetQueueMask) }
    else    if c == 114 { Some(RequestType::GetQueueStatus) }
    else    if c == 115 { Some(RequestType::GetProcessIdleEvent) }
    else    if c == 116 { Some(RequestType::SendMessage) }
    else    if c == 117 { Some(RequestType::PostQuitMessage) }
    else    if c == 118 { Some(RequestType::SendHardwareMessage) }
    else    if c == 119 { Some(RequestType::GetMessage) }
    else    if c == 120 { Some(RequestType::ReplyMessage) }
    else    if c == 121 { Some(RequestType::AcceptHardwareMessage) }
    else    if c == 122 { Some(RequestType::GetMessageReply) }
    else    if c == 123 { Some(RequestType::SetWinTimer) }
    else    if c == 124 { Some(RequestType::KillWinTimer) }
    else    if c == 125 { Some(RequestType::IsWindowHung) }
    else    if c == 126 { Some(RequestType::GetSerialInfo) }
    else    if c == 127 { Some(RequestType::SetSerialInfo) }
    else    if c == 128 { Some(RequestType::CancelSync) }
    else    if c == 129 { Some(RequestType::RegisterAsync) }
    else    if c == 130 { Some(RequestType::CancelAsync) }
    else    if c == 131 { Some(RequestType::GetAsyncResult) }
    else    if c == 132 { Some(RequestType::SetAsyncDirectResult) }
    else    if c == 133 { Some(RequestType::Read) }
    else    if c == 134 { Some(RequestType::Write) }
    else    if c == 135 { Some(RequestType::Ioctl) }
    else    if c == 136 { Some(RequestType::SetIrpResult) }
    else    if c == 137 { Some(RequestType::CreateNamedPipe) }
    else    if c == 138 { Some(RequestType::SetNamedPipeInfo) }
    else    if c == 139 { Some(RequestType::CreateWindow) }
    else    if c == 140 { Some(RequestType::DestroyWindow) }
    else    if c == 141 { Some(RequestType::GetDesktopWindow) }
    else    if c == 142 { Some(RequestType::SetWindowOwner) }
    else    if c == 143 { Some(RequestType::GetWindowInfo) }
    else    if c == 144 { Some(RequestType::SetWindowInfo) }
    else    if c == 145 { Some(RequestType::SetParent) }
    else    if c == 146 { Some(RequestType::GetWindowParents) }
    else    if c == 147 { Some(RequestType::GetWindowChildren) }
    else    if c == 148 { Some(RequestType::GetWindowChildrenFromPoint) }
    else    if c == 149 { Some(RequestType::GetWindowTree) }
    else    if c == 150 { Some(RequestType::SetWindowPos) }
    else    if c == 151 { Some(RequestType::GetWindowRectangles) }
    else    if c == 152 { Some(RequestType::GetWindowText) }
    else    if c == 153 { Some(RequestType::SetWindowText) }
    else    if c == 154 { Some(RequestType::GetWindowsOffset) }
    else    if c == 155 { Some(RequestType::GetVisibleRegion) }
    else    if c == 156 { Some(RequestType::GetSurfaceRegion) }
    else    if c == 157 { Some(RequestType::GetWindowRegion) }
    else    if c == 158 { Some(RequestType::SetWindowRegion) }
    else    if c == 159 { Some(RequestType::GetUpdateRegion) }
    else    if c == 160 { Some(RequestType::UpdateWindowZorder) }
    else    if c == 161 { Some(RequestType::RedrawWindow) }
    else    if c == 162 { Some(RequestType::SetWindowProperty) }
    else    if c == 163 { Some(RequestType::RemoveWindowProperty) }
    else    if c == 164 { Some(RequestType::GetWindowProperty) }
    else    if c == 165 { Some(RequestType::GetWindowProperties) }
    else    if c == 166 { Some(RequestType::CreateWinstation) }
    else    if c == 167 { Some(RequestType::OpenWinstation) }
    else    if c == 168 { Some(RequestType::CloseWinstation) }
    else    if c == 169 { Some(RequestType::GetProcessWinstation) }
    else    if c == 170 { Some(RequestType::SetProcessWinstation) }
    else    if c == 171 { Some(RequestType::EnumWinstation) }
    else    if c == 172 { Some(RequestType::CreateDesktop) }
    else    if c == 173 { Some(RequestType::OpenDesktop) }
    else    if c == 174 { Some(RequestType::OpenInputDesktop) }
    else    if c == 175 { Some(RequestType::CloseDesktop) }
    else    if c == 176 { Some(RequestType::GetThreadDesktop) }
    else    if c == 177 { Some(RequestType::SetThreadDesktop) }
    else    if c == 178 { Some(RequestType::EnumDesktop) }
    else    if c == 179 { Some(RequestType::SetUserObjectInfo) }
    else    if c == 180 { Some(RequestType::RegisterHotkey) }
    else    if c == 181 { Some(RequestType::UnregisterHotkey) }
    else    if c == 182 { Some(RequestType::AttachThreadInput) }
    else    if c == 183 { Some(RequestType::GetThreadInput) }
    else    if c == 184 { Some(RequestType::GetLastInputTime) }
    else    if c == 185 { Some(RequestType::GetKeyState) }
    else    if c == 186 { Some(RequestType::SetKeyState) }
    else    if c == 187 { Some(RequestType::SetForegroundWindow) }
    else    if c == 188 { Some(RequestType::SetFocusWindow) }
    else    if c == 189 { Some(RequestType::SetActiveWindow) }
    else    if c == 190 { Some(RequestType::SetCaptureWindow) }
    else    if c == 191 { Some(RequestType::SetCaretWindow) }
    else    if c == 192 { Some(RequestType::SetCaretInfo) }
    else    if c == 193 { Some(RequestType::SetHook) }
    else    if c == 194 { Some(RequestType::RemoveHook) }
    else    if c == 195 { Some(RequestType::StartHookChain) }
    else    if c == 196 { Some(RequestType::FinishHookChain) }
    else    if c == 197 { Some(RequestType::GetHookInfo) }
    else    if c == 198 { Some(RequestType::CreateClass) }
    else    if c == 199 { Some(RequestType::DestroyClass) }
    else    if c == 200 { Some(RequestType::SetClassInfo) }
    else    if c == 201 { Some(RequestType::OpenClipboard) }
    else    if c == 202 { Some(RequestType::CloseClipboard) }
    else    if c == 203 { Some(RequestType::EmptyClipboard) }
    else    if c == 204 { Some(RequestType::SetClipboardData) }
    else    if c == 205 { Some(RequestType::GetClipboardData) }
    else    if c == 206 { Some(RequestType::GetClipboardFormats) }
    else    if c == 207 { Some(RequestType::EnumClipboardFormats) }
    else    if c == 208 { Some(RequestType::ReleaseClipboard) }
    else    if c == 209 { Some(RequestType::GetClipboardInfo) }
    else    if c == 210 { Some(RequestType::SetClipboardViewer) }
    else    if c == 211 { Some(RequestType::AddClipboardListener) }
    else    if c == 212 { Some(RequestType::RemoveClipboardListener) }
    else    if c == 213 { Some(RequestType::CreateToken) }
    else    if c == 214 { Some(RequestType::OpenToken) }
    else    if c == 215 { Some(RequestType::SetGlobalWindows) }
    else    if c == 216 { Some(RequestType::AdjustTokenPrivileges) }
    else    if c == 217 { Some(RequestType::GetTokenPrivileges) }
    else    if c == 218 { Some(RequestType::CheckTokenPrivileges) }
    else    if c == 219 { Some(RequestType::DuplicateToken) }
    else    if c == 220 { Some(RequestType::FilterToken) }
    else    if c == 221 { Some(RequestType::AccessCheck) }
    else    if c == 222 { Some(RequestType::GetTokenSid) }
    else    if c == 223 { Some(RequestType::GetTokenGroups) }
    else    if c == 224 { Some(RequestType::GetTokenDefaultDacl) }
    else    if c == 225 { Some(RequestType::SetTokenDefaultDacl) }
    else    if c == 226 { Some(RequestType::SetSecurityObject) }
    else    if c == 227 { Some(RequestType::GetSecurityObject) }
    else    if c == 228 { Some(RequestType::GetSystemHandles) }
    else    if c == 229 { Some(RequestType::CreateMailslot) }
    else    if c == 230 { Some(RequestType::SetMailslotInfo) }
    else    if c == 231 { Some(RequestType::CreateDirectory) }
    else    if c == 232 { Some(RequestType::OpenDirectory) }
    else    if c == 233 { Some(RequestType::GetDirectoryEntry) }
    else    if c == 234 { Some(RequestType::CreateSymlink) }
    else    if c == 235 { Some(RequestType::OpenSymlink) }
    else    if c == 236 { Some(RequestType::QuerySymlink) }
    else    if c == 237 { Some(RequestType::GetObjectInfo) }
    else    if c == 238 { Some(RequestType::GetObjectName) }
    else    if c == 239 { Some(RequestType::GetObjectType) }
    else    if c == 240 { Some(RequestType::GetObjectTypes) }
    else    if c == 241 { Some(RequestType::AllocateLocallyUniqueId) }
    else    if c == 242 { Some(RequestType::CreateDeviceManager) }
    else    if c == 243 { Some(RequestType::CreateDevice) }
    else    if c == 244 { Some(RequestType::DeleteDevice) }
    else    if c == 245 { Some(RequestType::GetNextDeviceRequest) }
    else    if c == 246 { Some(RequestType::GetKernelObjectPtr) }
    else    if c == 247 { Some(RequestType::SetKernelObjectPtr) }
    else    if c == 248 { Some(RequestType::GrabKernelObject) }
    else    if c == 249 { Some(RequestType::ReleaseKernelObject) }
    else    if c == 250 { Some(RequestType::GetKernelObjectHandle) }
    else    if c == 251 { Some(RequestType::MakeProcessSystem) }
    else    if c == 252 { Some(RequestType::GetTokenInfo) }
    else    if c == 253 { Some(RequestType::CreateLinkedToken) }
    else    if c == 254 { Some(RequestType::CreateCompletion) }
    else    if c == 255 { Some(RequestType::OpenCompletion) }
    else    if c == 256 { Some(RequestType::AddCompletion) }
    else    if c == 257 { Some(RequestType::RemoveCompletion) }
    else    if c == 258 { Some(RequestType::QueryCompletion) }
    else    if c == 259 { Some(RequestType::SetCompletionInfo) }
    else    if c == 260 { Some(RequestType::AddFdCompletion) }
    else    if c == 261 { Some(RequestType::SetFdCompletionMode) }
    else    if c == 262 { Some(RequestType::SetFdDispInfo) }
    else    if c == 263 { Some(RequestType::SetFdNameInfo) }
    else    if c == 264 { Some(RequestType::SetFdEofInfo) }
    else    if c == 265 { Some(RequestType::GetWindowLayeredInfo) }
    else    if c == 266 { Some(RequestType::SetWindowLayeredInfo) }
    else    if c == 267 { Some(RequestType::AllocUserHandle) }
    else    if c == 268 { Some(RequestType::FreeUserHandle) }
    else    if c == 269 { Some(RequestType::SetCursor) }
    else    if c == 270 { Some(RequestType::GetCursorHistory) }
    else    if c == 271 { Some(RequestType::GetRawinputBuffer) }
    else    if c == 272 { Some(RequestType::UpdateRawinputDevices) }
    else    if c == 273 { Some(RequestType::CreateJob) }
    else    if c == 274 { Some(RequestType::OpenJob) }
    else    if c == 275 { Some(RequestType::AssignJob) }
    else    if c == 276 { Some(RequestType::ProcessInJob) }
    else    if c == 277 { Some(RequestType::SetJobLimits) }
    else    if c == 278 { Some(RequestType::SetJobCompletionPort) }
    else    if c == 279 { Some(RequestType::GetJobInfo) }
    else    if c == 280 { Some(RequestType::TerminateJob) }
    else    if c == 281 { Some(RequestType::SuspendProcess) }
    else    if c == 282 { Some(RequestType::ResumeProcess) }
    else    if c == 283 { Some(RequestType::GetNextThread) }
    else { None }
}

/// Bytes in one fixed wire record, request or reply.
pub const RECORD_SIZE: usize = 64;

/// Bytes of a request record taken by the header.
pub const REQUEST_HEADER_SIZE: usize = 12;

/// Bytes of a request record after the header.
pub const REQUEST_BODY_SIZE: usize = 52;

/// Bytes of a reply record taken by the header.
pub const REPLY_HEADER_SIZE: usize = 8;

/// Bytes of a reply record after the header.
pub const REPLY_BODY_SIZE: usize = 56;

/// One request record as it travels: the decoded header plus the raw
/// bytes of the opcode's own fields.  Handlers for an opcode read their
/// typed record out of `body` through the `codec` module.
pub struct GenericRequest {
    pub header: RequestHeader,
    pub body: Vec<u8>,
}

impl GenericRequest {
    /// The body always holds exactly the record bytes that follow the header.
    pub open spec fn wf(&self) -> bool {
        self.body@.len() == REQUEST_BODY_SIZE
    }
}

/// One reply record as it travels: the decoded header plus the raw bytes
/// of the opcode's reply fields.
pub struct GenericReply {
    pub header: ReplyHeader,
    pub body: Vec<u8>,
}

impl GenericReply {
    /// The body always holds exactly the record bytes that follow the header.
    pub open spec fn wf(&self) -> bool {
        self.body@.len() == REPLY_BODY_SIZE
    }
}

/// Decoding is the inverse of the opcode map, so a record survives a round trip.
pub proof fn lemma_request_code_round_trip()
    ensures
        forall|t: RequestType| #![auto] spec_request_from_code(request_code(t)) == Some(t),
        forall|t: RequestType| #![auto] request_code(t) < REQUEST_TYPE_COUNT,
{
}

} // verus!
