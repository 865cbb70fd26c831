//! Data types exchanged with the sandbox service: sandbox descriptions and
//! lifecycle states, file and git metadata, session and PTY descriptors,
//! volumes, snapshots and preview links. They carry plain values; the
//! surrounding SDK serializes them at its edges.

use vstd::prelude::*;

use std::collections::HashMap;

use crate::image::DockerImage;

verus! {

/// Lifecycle state of a sandbox.
#[derive(Debug, Clone, PartialEq, Eq)]
pub enum SandboxState {
    Creating,
    Starting,
    Started,
    Stopping,
    Stopped,
    PendingBuild,
    BuildFailed,
    Resizing,
    Error,
    Destroyed,
    Unknown,
}

/// Backup state of a sandbox.
#[derive(Debug, Clone, PartialEq, Eq)]
pub enum SandboxBackupState {
    Unknown,
    BackingUp,
    Restoring,
    Archiving,
    Archived,
    Error,
}

/// Build information for a sandbox created from a Docker image or custom
/// Dockerfile.
#[derive(Debug, Clone)]
pub struct BuildInfo {
    /// Dockerfile content for building the sandbox image.
    pub dockerfile_content: String,
    /// Hashes of context files uploaded to object storage for the build.
    pub context_hashes: Option<Vec<String>>,
}

/// Language of a sandbox's default code runtime.
#[derive(Debug, Clone, PartialEq, Eq)]
pub enum CodeLanguage {
    Python,
    JavaScript,
    TypeScript,
}

/// Compute resources of a sandbox.
#[derive(Debug, Clone, Default)]
pub struct Resources {
    pub cpu: Option<i32>,
    pub gpu: Option<i32>,
    pub memory: Option<i32>,
    pub disk: Option<i32>,
}

/// A volume attached to a sandbox at a path.
#[derive(Debug, Clone)]
pub struct VolumeMount {
    pub volume_id: String,
    pub mount_path: String,
    pub subpath: Option<String>,
}

/// Everything a sandbox can be created with.
#[derive(Debug, Clone, Default)]
pub struct CreateSandboxParams {
    pub name: Option<String>,
    pub user: Option<String>,
    pub language: Option<CodeLanguage>,
    pub env_vars: Option<HashMap<String, String>>,
    pub labels: Option<HashMap<String, String>>,
    pub public: Option<bool>,
    pub auto_stop_interval: Option<i32>,
    pub auto_archive_interval: Option<i32>,
    pub auto_delete_interval: Option<i32>,
    pub volumes: Option<Vec<VolumeMount>>,
    pub network_block_all: Option<bool>,
    pub network_allow_list: Option<String>,
    pub ephemeral: Option<bool>,
    pub snapshot: Option<String>,
    pub image: Option<String>,
    pub resources: Option<Resources>,
    /// The target (region) where the sandbox will be created.
    pub target: Option<String>,
    /// Build information for the sandbox.
    pub build_info: Option<BuildInfo>,
    /// Docker image builder for custom Dockerfile definitions; processed by
    /// the client into build information before the request goes out.
    pub docker_image: Option<DockerImage>,
}

/// A sandbox as the service describes it.
#[derive(Debug, Clone)]
pub struct SandboxDto {
    pub id: String,
    pub name: String,
    pub state: SandboxState,
    pub target: String,
    /// Organization that owns the sandbox.
    pub organization_id: String,
    /// Snapshot used to create the sandbox.
    pub snapshot: Option<String>,
    /// OS user running in the sandbox.
    pub user: Option<String>,
    /// Environment variables set in the sandbox.
    pub env: Option<HashMap<String, String>>,
    pub labels: Option<HashMap<String, String>>,
    pub public: Option<bool>,
    pub auto_stop_interval: Option<i32>,
    pub auto_archive_interval: Option<i32>,
    pub auto_delete_interval: Option<i32>,
    /// Volumes attached to the sandbox.
    pub volumes: Option<Vec<VolumeMount>>,
    pub network_block_all: bool,
    pub network_allow_list: Option<String>,
    /// Error reason if the sandbox is in an error state.
    pub error_reason: Option<String>,
    /// Whether the error is recoverable.
    pub recoverable: Option<bool>,
    /// CPU cores allocated.
    pub cpu: Option<i32>,
    /// GPU units allocated.
    pub gpu: Option<i32>,
    pub memory: Option<i32>,
    /// Disk space in GiB.
    pub disk: Option<i32>,
    /// Current backup state.
    pub backup_state: SandboxBackupState,
    /// When the backup was created.
    pub backup_created_at: Option<String>,
    /// Build information for the sandbox.
    pub build_info: Option<BuildInfo>,
    /// When the sandbox was created.
    pub created_at: Option<String>,
    /// When the sandbox was last updated.
    pub updated_at: Option<String>,
}

/// One page of a sandbox listing.
#[derive(Debug, Clone)]
pub struct PaginatedSandboxes {
    pub items: Vec<SandboxDto>,
    pub total: i32,
    pub page: i32,
    pub total_pages: i32,
}

/// An error raised by executed code.
#[derive(Debug, Clone, Default)]
pub struct ExecutionError {
    pub name: String,
    pub value: String,
    pub traceback: Option<String>,
}

/// Metadata of one file or directory.
#[derive(Debug, Clone, Default)]
pub struct FileInfo {
    pub name: String,
    pub size: i64,
    pub mode: String,
    pub is_directory: bool,
    pub modified_time: Option<String>,
}

/// One file to upload.
#[derive(Debug, Clone)]
pub struct FileUpload {
    pub source: String,
    pub destination: String,
}

/// One file to download.
#[derive(Debug, Clone)]
pub struct FileDownloadRequest {
    pub source: String,
    pub destination: Option<String>,
}

/// The outcome of one file download.
#[derive(Debug, Clone, Default)]
pub struct FileDownloadResponse {
    pub source: String,
    pub result: Option<String>,
    pub error: Option<String>,
}

/// Files found by a search.
#[derive(Debug, Clone, Default)]
pub struct SearchFilesResponse {
    pub files: Vec<String>,
}

/// The outcome of a find-and-replace over one file.
#[derive(Debug, Clone, Default)]
pub struct ReplaceResult {
    pub file: String,
    pub replaced: i32,
}

/// Git status of one file.
#[derive(Debug, Clone, Default)]
pub struct GitFileStatus {
    pub path: String,
    pub status: String,
}

/// Git status of a working tree.
#[derive(Debug, Clone, Default)]
pub struct GitStatus {
    pub current_branch: String,
    pub ahead: i32,
    pub behind: i32,
    pub branch_published: bool,
    pub file_status: Vec<GitFileStatus>,
}

/// The commit a git commit produced.
#[derive(Debug, Clone, Default)]
pub struct GitCommitResponse {
    pub sha: String,
}

/// The branches of a repository.
#[derive(Debug, Clone, Default)]
pub struct BranchesResponse {
    pub branches: Vec<String>,
}

/// One PTY session as the service describes it.
#[derive(Debug, Clone, Default)]
pub struct PtySessionInfo {
    pub session_id: String,
    pub active: bool,
    pub cwd: Option<String>,
    pub cols: Option<i32>,
    pub rows: Option<i32>,
}

/// The identifier a freshly created PTY session got.
#[derive(Debug, Clone, Default)]
pub struct PtyCreateResponse {
    pub session_id: String,
}

/// One code-interpreter context.
#[derive(Debug, Clone, Default)]
pub struct InterpreterContext {
    pub id: String,
    pub language: Option<String>,
    pub cwd: Option<String>,
}

/// One window on the sandbox display.
#[derive(Debug, Clone, Default)]
pub struct WindowInfo {
    pub id: Option<String>,
    pub title: Option<String>,
}

/// A named storage volume.
#[derive(Debug, Clone, Default)]
pub struct Volume {
    pub id: String,
    pub name: String,
    pub state: Option<String>,
}

/// A snapshot of a sandbox image.
#[derive(Debug, Clone, Default)]
pub struct Snapshot {
    pub id: String,
    pub name: String,
    pub state: Option<String>,
}

/// One page of a snapshot listing.
#[derive(Debug, Clone, Default)]
pub struct PaginatedSnapshots {
    pub items: Vec<Snapshot>,
    pub total: i32,
    pub page: i32,
    pub total_pages: i32,
}

/// Everything a snapshot can be created with.
#[derive(Debug, Clone, Default)]
pub struct CreateSnapshotParams {
    pub name: String,
    pub image: Option<String>,
    pub resources: Option<Resources>,
    pub entrypoint: Option<Vec<String>>,
    pub skip_validation: Option<bool>,
    /// Docker image builder for custom Dockerfile definitions; processed by
    /// the client into build information before the request goes out.
    pub docker_image: Option<DockerImage>,
}

/// A link for previewing a sandbox port.
#[derive(Debug, Clone, Default)]
pub struct PreviewLink {
    pub url: String,
    pub token: String,
}

/// A signed URL for previewing a sandbox port.
#[derive(Debug, Clone, Default)]
pub struct SignedPreviewUrl {
    pub url: String,
    pub token: String,
}

/// A position in a text document.
#[derive(Debug, Clone, Default)]
pub struct Position {
    pub line: i32,
    pub character: i32,
}

/// One command-execution session.
#[derive(Debug, Clone, Default)]
pub struct Session {
    pub session_id: String,
    pub commands: Vec<String>,
}

/// A command to run in a session.
#[derive(Debug, Clone, Default)]
pub struct SessionExecuteRequest {
    pub command: String,
    pub run_async: bool,
    pub suppress_input_echo: bool,
}

/// What running a session command returned.
#[derive(Debug, Clone, Default)]
pub struct SessionExecuteResponse {
    pub id: String,
    pub exit_code: Option<i32>,
    pub stdout: Option<String>,
    pub stderr: Option<String>,
}

/// One command of a session.
#[derive(Debug, Clone, Default)]
pub struct Command {
    pub id: String,
    pub command: String,
    pub exit_code: Option<i32>,
}

/// One match of a content search.
#[derive(Debug, Clone, Default)]
pub struct FindMatch {
    pub file: String,
    pub line: i32,
    pub content: String,
}

/// A directory the service answered with.
#[derive(Debug, Clone, Default)]
pub struct DirResponse {
    pub dir: Option<String>,
}

/// SSH access to a sandbox.
#[derive(Debug, Clone, Default)]
pub struct SshAccessDto {
    pub token: String,
    pub expires_at: String,
    pub ssh_command: String,
    pub ssh_host: String,
    pub ssh_port: u16,
    pub ssh_user: String,
}

/// The validity of an SSH access token.
#[derive(Debug, Clone, Default)]
pub struct SshAccessValidationDto {
    pub valid: bool,
    pub expires_at: Option<String>,
    pub sandbox_id: Option<String>,
}

/// New resources to give a sandbox.
#[derive(Debug, Clone, Default)]
pub struct ResizeSandboxRequest {
    pub cpu: Option<i32>,
    pub memory: Option<i32>,
    pub disk: Option<i32>,
}

/// The labels of a sandbox.
#[derive(Debug, Clone, Default)]
pub struct SandboxLabels {
    pub labels: HashMap<String, String>,
}

/// Terminal dimensions of a PTY.
#[derive(Debug, Clone, Default)]
pub struct PtySize {
    pub rows: i32,
    pub cols: i32,
}

/// A rectangle of the sandbox display.
#[derive(Debug, Clone, Default)]
pub struct ScreenshotRegion {
    pub x: i32,
    pub y: i32,
    pub width: i32,
    pub height: i32,
}

/// A screenshot of the sandbox display.
#[derive(Debug, Clone, Default)]
pub struct ScreenshotResponse {
    pub image: String,
    pub width: i32,
    pub height: i32,
    pub size_bytes: Option<i32>,
}

/// One output message of the code interpreter.
#[derive(Debug, Clone, Default)]
pub struct OutputMessage {
    pub type_: String,
    pub text: String,
    pub name: String,
    pub value: String,
    pub traceback: String,
}

/// Language served by a language server.
#[derive(Debug, Clone, PartialEq, Eq)]
pub enum LspLanguageId {
    Python,
    JavaScript,
    TypeScript,
}

/// Kind of a chart captured from executed code.
#[derive(Debug, Clone, PartialEq, Eq)]
pub enum ChartType {
    Line,
    Scatter,
    Bar,
    Pie,
    BoxAndWhisker,
    CompositeChart,
    Unknown,
}

/// Parameters for code execution, as the process service takes them.
#[derive(Debug, Clone, Default)]
pub struct CodeRunParams {
    pub argv: Option<Vec<String>>,
    pub env: Option<HashMap<String, String>>,
}

/// How a PTY session ended.
#[derive(Debug, Clone, Default)]
pub struct PtyResult {
    pub exit_code: Option<i32>,
    pub error: Option<String>,
}

} // verus!
