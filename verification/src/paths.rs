//! Socket path and backend binary selection.

use vstd::prelude::*;

verus! {

/// The Unix socket path used for IPC with the backend.
/// The socket file is created by the backend once it is listening.
pub fn get_socket_path() -> (r: String)
    ensures
        r@ == "/tmp/ai-engine.sock"@,
{
    "/tmp/ai-engine.sock".to_owned()
}

/// Liveness probe: whether the backend's socket file exists and is reachable.
///
/// Relies on std::path::Path::exists. The result depends on the state of the
/// filesystem at the moment of the call, so nothing is promised of it; the
/// readiness decisions take the observed value as an argument.
#[verifier::external_body]
pub fn is_socket_ready(socket_path: &str) -> bool {
    std::path::Path::new(socket_path).exists()
}

/// Target operating system of the backend binary.
#[derive(Clone, Copy, PartialEq, Eq, Structural, Debug)]
pub enum TargetOs {
    MacOs,
    Linux,
    Windows,
}

/// Target processor architecture of the backend binary.
#[derive(Clone, Copy, PartialEq, Eq, Structural, Debug)]
pub enum TargetArch {
    X86_64,
    Aarch64,
}

/// The path of the prebuilt backend executable for a platform.
pub open spec fn spec_binary_path(os: TargetOs, arch: TargetArch) -> Seq<char> {
    match os {
        TargetOs::MacOs => match arch {
            TargetArch::Aarch64 => "../src-tauri/binaries/ai-engine-aarch64-apple-darwin"@,
            TargetArch::X86_64 => "../src-tauri/binaries/ai-engine-x86_64-apple-darwin"@,
        },
        TargetOs::Linux => match arch {
            TargetArch::X86_64 => "../src-tauri/binaries/ai-engine-x86_64-unknown-linux-gnu"@,
            TargetArch::Aarch64 => "../src-tauri/binaries/ai-engine-aarch64-unknown-linux-gnu"@,
        },
        TargetOs::Windows => "../src-tauri/binaries/ai-engine-x86_64-pc-windows-msvc.exe"@,
    }
}

/// Select the prebuilt backend executable for the given platform.
///
/// Format: ai-engine-{arch}-{os}[.exe]. The caller supplies the platform it
/// was compiled for; on Windows a single x86_64 build is shipped, whatever
/// the architecture.
pub fn get_ai_engine_binary(os: TargetOs, arch: TargetArch) -> (r: String)
    ensures
        r@ == spec_binary_path(os, arch),
{
    match os {
        TargetOs::MacOs => match arch {
            TargetArch::Aarch64 => "../src-tauri/binaries/ai-engine-aarch64-apple-darwin"
                .to_owned(),
            TargetArch::X86_64 => "../src-tauri/binaries/ai-engine-x86_64-apple-darwin".to_owned(),
        },
        TargetOs::Linux => match arch {
            TargetArch::X86_64 => "../src-tauri/binaries/ai-engine-x86_64-unknown-linux-gnu"
                .to_owned(),
            TargetArch::Aarch64 => "../src-tauri/binaries/ai-engine-aarch64-unknown-linux-gnu"
                .to_owned(),
        },
        TargetOs::Windows => "../src-tauri/binaries/ai-engine-x86_64-pc-windows-msvc.exe"
            .to_owned(),
    }
}

} // verus!
