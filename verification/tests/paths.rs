use sidecar_supervisor::get_ai_engine_binary;
use sidecar_supervisor::get_socket_path;
use sidecar_supervisor::is_socket_ready;
use sidecar_supervisor::paths::TargetArch;
use sidecar_supervisor::paths::TargetOs;

#[test]
fn socket_path_value() {
    assert_eq!(get_socket_path(), "/tmp/ai-engine.sock");
}

#[test]
fn binary_path_macos_aarch64() {
    assert_eq!(
        get_ai_engine_binary(TargetOs::MacOs, TargetArch::Aarch64),
        "../src-tauri/binaries/ai-engine-aarch64-apple-darwin"
    );
}

#[test]
fn binary_path_macos_x86_64() {
    assert_eq!(
        get_ai_engine_binary(TargetOs::MacOs, TargetArch::X86_64),
        "../src-tauri/binaries/ai-engine-x86_64-apple-darwin"
    );
}

#[test]
fn binary_path_linux_x86_64() {
    assert_eq!(
        get_ai_engine_binary(TargetOs::Linux, TargetArch::X86_64),
        "../src-tauri/binaries/ai-engine-x86_64-unknown-linux-gnu"
    );
}

#[test]
fn binary_path_linux_aarch64() {
    assert_eq!(
        get_ai_engine_binary(TargetOs::Linux, TargetArch::Aarch64),
        "../src-tauri/binaries/ai-engine-aarch64-unknown-linux-gnu"
    );
}

#[test]
fn binary_path_windows_either_arch() {
    assert_eq!(
        get_ai_engine_binary(TargetOs::Windows, TargetArch::X86_64),
        "../src-tauri/binaries/ai-engine-x86_64-pc-windows-msvc.exe"
    );
    assert_eq!(
        get_ai_engine_binary(TargetOs::Windows, TargetArch::Aarch64),
        "../src-tauri/binaries/ai-engine-x86_64-pc-windows-msvc.exe"
    );
}

#[test]
fn socket_probe_missing_path() {
    assert!(!is_socket_ready("/tmp/sidecar-supervisor-test-no-such-socket.sock"));
}

#[test]
fn socket_probe_existing_path() {
    assert!(is_socket_ready("/"));
}
