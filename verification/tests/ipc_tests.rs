use communicator::error::DiscordRpcError;
use communicator::ipc::{
    missing_pipe_error, missing_socket_error, runtime_dir, unix_socket_candidates,
    unix_socket_path, windows_pipe_candidates, windows_pipe_name, IPC_SLOTS,
};

#[test]
fn runtime_dir_defaults_to_tmp() {
    assert_eq!(runtime_dir(None), "/tmp");
    assert_eq!(runtime_dir(Some("/run/user/1000".to_string())), "/run/user/1000");
}

#[test]
fn socket_paths() {
    assert_eq!(unix_socket_path("/tmp", 0), "/tmp/discord-ipc-0");
    assert_eq!(unix_socket_path("/run/user/1000", 9), "/run/user/1000/discord-ipc-9");
    let all = unix_socket_candidates(Some("/run/user/5".to_string()));
    assert_eq!(all.len(), IPC_SLOTS as usize);
    for (i, p) in all.iter().enumerate() {
        assert_eq!(p, &format!("/run/user/5/discord-ipc-{}", i));
    }
    assert_eq!(unix_socket_candidates(None)[3], "/tmp/discord-ipc-3");
}

#[test]
fn pipe_names() {
    assert_eq!(windows_pipe_name(4), r"\\.\pipe\discord-ipc-4");
    let all = windows_pipe_candidates();
    assert_eq!(all.len(), 10);
    for (i, p) in all.iter().enumerate() {
        assert_eq!(p, &format!(r"\\.\pipe\discord-ipc-{}", i));
    }
}

#[test]
fn connection_failures() {
    match missing_socket_error() {
        DiscordRpcError::ConnectionFailed(m) => assert_eq!(m, "Could not find Discord IPC socket"),
        e => panic!("{:?}", e),
    }
    match missing_pipe_error() {
        DiscordRpcError::ConnectionFailed(m) => assert_eq!(m, "Could not find Discord named pipe"),
        e => panic!("{:?}", e),
    }
}
