use reign_ng::commands::archive_file_name;
use reign_ng::commands::cleanup_command;
use reign_ng::commands::join_words;
use reign_ng::commands::reign_command;
use reign_ng::commands::relative_files;
use reign_ng::commands::ssh_mkdir_command;
use reign_ng::commands::strip_prefix;
use reign_ng::commands::tar_command;
use reign_ng::commands::unpack_command;
use reign_ng::commands::upload_command;
use reign_ng::context::ReignOperation;
use reign_ng::files::sync_patterns;

fn operation(user: &str) -> ReignOperation {
    ReignOperation {
        op_uuid: String::from("abc123"),
        inventory: String::from("inv"),
        reign_name: String::from("deploy"),
        remote_user: String::from(user),
        remote_host: String::from("example.com"),
        default_env: vec![
            (String::from("DEBUG"), String::from("1")),
            (String::from("RUN_AS"), String::from(user)),
            (String::from("SKIP_ENV_VALIDATION"), String::new()),
        ],
    }
}

#[test]
fn strip_prefix_removes_leading_root() {
    assert_eq!(strip_prefix("/root/bin/run", "/root/"), "bin/run");
}

#[test]
fn strip_prefix_leaves_other_paths_alone() {
    assert_eq!(strip_prefix("/other/bin/run", "/root/"), "/other/bin/run");
    assert_eq!(strip_prefix("/r", "/root/"), "/r");
}

#[test]
fn join_words_separates_by_single_spaces() {
    assert_eq!(join_words(&vec![]), "");
    assert_eq!(join_words(&vec![String::from("a")]), "a");
    assert_eq!(
        join_words(&vec![String::from("a"), String::from("bc"), String::from("d")]),
        "a bc d"
    );
}

#[test]
fn relative_files_strips_each_path() {
    let files = vec![String::from("/root/a"), String::from("/elsewhere/b")];
    assert_eq!(relative_files(&files, "/root/"), vec!["a", "/elsewhere/b"]);
}

#[test]
fn archive_is_named_by_operation_id() {
    assert_eq!(archive_file_name(&operation("ops")), "abc123.tar.zst");
}

#[test]
fn tar_command_packs_relative_files_with_ownership() {
    let files = vec![
        String::from("/Volumes/Projects/Shable.Centra/bin/run"),
        String::from("/Volumes/Projects/Shable.Centra/inventory"),
    ];
    assert_eq!(
        tar_command(&operation("ops"), &files),
        "tar --zstd -cf abc123.tar.zst --uname ops --gname ops --no-xattrs bin/run inventory"
    );
}

#[test]
fn mkdir_command_provisions_the_workspace() {
    assert_eq!(
        ssh_mkdir_command(&operation("")),
        "ssh example.com mkdir -p /tmp/reigns_abc123"
    );
    assert_eq!(
        ssh_mkdir_command(&operation("ops")),
        "ssh ops@example.com mkdir -p /tmp/reigns_abc123"
    );
}

#[test]
fn upload_command_copies_artifact_into_workspace() {
    assert_eq!(
        upload_command(&operation("ops")),
        "scp -4Bp /Volumes/Projects/Shable.Centra/abc123.tar.zst \
         ops@example.com:/tmp/reigns_abc123/abc123.tar.zst"
    );
}

#[test]
fn unpack_command_extracts_in_workspace() {
    assert_eq!(
        unpack_command(&operation("ops")),
        "ssh ops@example.com cd /tmp/reigns_abc123; tar xf abc123.tar.zst"
    );
}

#[test]
fn reign_command_forwards_constrained_environment() {
    assert_eq!(
        reign_command(&operation("ops")),
        "ssh ops@example.com cd /tmp/reigns_abc123 && /bin/sh -c \
         'export DEBUG=1 SKIP_ENV_VALIDATION= REMOTE=example.com ARGUMENTS= \
         && bin/shable inv deploy 2>&1'"
    );
}

#[test]
fn cleanup_commands_remove_workspace_then_artifact() {
    let (remote, local) = cleanup_command(&operation("ops"));
    assert_eq!(remote, "ssh ops@example.com rm -rf /tmp/reigns_abc123");
    assert_eq!(local, "rm -f abc123.tar.zst");
}

#[test]
fn reign_command_reads_the_environment_a_new_operation_carries() {
    let op = ReignOperation::new(
        "deploy",
        "inv",
        "example.com",
        String::from("ops"),
        String::from("1"),
        String::from("yes"),
    );
    let command = reign_command(&op);
    assert!(command.starts_with("ssh ops@example.com cd /tmp/reigns_"));
    assert!(command.contains("export DEBUG=1 SKIP_ENV_VALIDATION=yes REMOTE=example.com"));
    assert!(command.ends_with("&& bin/shable inv deploy 2>&1'"));
}

#[test]
fn sync_patterns_cover_files_then_directories() {
    assert_eq!(
        sync_patterns(),
        vec![
            "/Volumes/Projects/Shable.Centra/inventory*",
            "/Volumes/Projects/Shable.Centra/*.sql*",
            "/Volumes/Projects/Shable.Centra/bin/**/*",
            "/Volumes/Projects/Shable.Centra/facts/**/*",
            "/Volumes/Projects/Shable.Centra/lib/**/*",
            "/Volumes/Projects/Shable.Centra/reigns/**/*",
            "/Volumes/Projects/Shable.Centra/tasks/**/*",
            "/Volumes/Projects/Shable.Centra/templates/**/*",
        ]
    );
}
