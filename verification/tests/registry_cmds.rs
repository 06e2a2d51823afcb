use command_bridge::error::FsError;
use command_bridge::fs::FileSystem;
use command_bridge::registry::{
    arity, collect_entries, dispatch_disk, failure_message, get_app_dir, greet, lookup_command,
    CommandId, CommandValue,
};

fn invoke(f: &mut FileSystem, name: &str, args: &[&str]) -> Result<CommandValue, String> {
    let cmd = lookup_command(name).expect("known command");
    let args: Vec<String> = args.iter().map(|a| a.to_string()).collect();
    assert_eq!(args.len(), arity(cmd));
    dispatch_disk(f, cmd, &args)
}

#[test]
fn dispatch_runs_a_whole_invocation() {
    let mut f = FileSystem::new();
    assert!(matches!(
        invoke(&mut f, "save_to_file", &["note", "hello"]),
        Ok(CommandValue::Unit)
    ));
    match invoke(&mut f, "read_from_file", &["note"]) {
        Ok(CommandValue::Text(s)) => assert_eq!(s, "hello"),
        other => panic!("unexpected outcome {:?}", other),
    }
    match invoke(&mut f, "file_exists", &["note"]) {
        Ok(CommandValue::Truth(b)) => assert!(b),
        other => panic!("unexpected outcome {:?}", other),
    }
    match invoke(&mut f, "get_file_size", &["note"]) {
        Ok(CommandValue::Size(n)) => assert_eq!(n, 5),
        other => panic!("unexpected outcome {:?}", other),
    }
    assert_eq!(
        invoke(&mut f, "delete_file", &["missing"]),
        Err(String::from("Failed to delete file: entity not found"))
    );
}

#[test]
fn lookup_knows_every_command() {
    assert_eq!(lookup_command("create_directory"), Some(CommandId::CreateDirectory));
    assert_eq!(lookup_command("delete_file"), Some(CommandId::DeleteFile));
    assert_eq!(lookup_command("copy_file"), Some(CommandId::CopyFile));
    assert_eq!(lookup_command("file_exists"), Some(CommandId::FileExists));
    assert_eq!(lookup_command("get_file_size"), Some(CommandId::GetFileSize));
    assert_eq!(lookup_command("list_directory"), Some(CommandId::ListDirectory));
    assert_eq!(lookup_command("save_to_file"), Some(CommandId::SaveToFile));
    assert_eq!(lookup_command("read_from_file"), Some(CommandId::ReadFromFile));
    assert_eq!(lookup_command("show_message"), Some(CommandId::ShowMessage));
    assert_eq!(lookup_command("confirm_action"), Some(CommandId::ConfirmAction));
    assert_eq!(lookup_command("select_file"), Some(CommandId::SelectFile));
    assert_eq!(lookup_command("save_file_dialog"), Some(CommandId::SaveFileDialog));
    assert_eq!(lookup_command("get_app_dir"), Some(CommandId::GetAppDir));
}

#[test]
fn lookup_rejects_unknown_names() {
    assert_eq!(lookup_command("format_disk"), None);
    assert_eq!(lookup_command("create_directory "), None);
    assert_eq!(lookup_command(""), None);
}

#[test]
fn arity_matches_the_surface() {
    assert_eq!(arity(CommandId::CreateDirectory), 1);
    assert_eq!(arity(CommandId::CopyFile), 2);
    assert_eq!(arity(CommandId::SaveToFile), 2);
    assert_eq!(arity(CommandId::SelectFile), 0);
    assert_eq!(arity(CommandId::GetAppDir), 0);
    assert_eq!(arity(CommandId::SaveFileDialog), 1);
}

#[test]
fn failure_strings_keep_their_prefixes() {
    assert_eq!(
        failure_message(CommandId::CreateDirectory, &FsError::PermissionDenied),
        "Failed to create directory: permission denied"
    );
    assert_eq!(
        failure_message(CommandId::DeleteFile, &FsError::NotFound),
        "Failed to delete file: entity not found"
    );
    assert_eq!(
        failure_message(CommandId::CopyFile, &FsError::Other(String::from("disk full"))),
        "Failed to copy file: disk full"
    );
    assert_eq!(
        failure_message(CommandId::ReadFromFile, &FsError::InvalidEncoding),
        "Failed to read file: stream did not contain valid UTF-8"
    );
    assert_eq!(
        failure_message(CommandId::SaveToFile, &FsError::AlreadyExists),
        "Failed to create file: entity already exists"
    );
}

#[test]
fn collect_entries_keeps_them_all_in_order() {
    let entries = vec![
        Ok(String::from("d/a")),
        Ok(String::from("d/b")),
        Ok(String::from("d/c")),
    ];
    assert_eq!(
        collect_entries(&entries),
        Ok(vec![String::from("d/a"), String::from("d/b"), String::from("d/c")])
    );
    assert_eq!(collect_entries(&Vec::new()), Ok(Vec::new()));
}

#[test]
fn collect_entries_is_all_or_nothing() {
    let entries = vec![
        Ok(String::from("d/a")),
        Err(String::from("boom")),
        Ok(String::from("d/c")),
    ];
    assert_eq!(
        collect_entries(&entries),
        Err(String::from("Failed to read directory entry: boom"))
    );
}

#[test]
fn app_dir_is_the_parent_of_the_executable() {
    assert_eq!(get_app_dir("/opt/tool/bin/app"), Ok(String::from("/opt/tool/bin")));
    assert_eq!(get_app_dir("/app"), Ok(String::from("/")));
    assert_eq!(get_app_dir("app"), Ok(String::from("")));
    assert_eq!(get_app_dir("/"), Err(String::from("Failed to get parent directory")));
    assert_eq!(get_app_dir(""), Err(String::from("Failed to get parent directory")));
}

#[test]
fn greet_greets() {
    assert_eq!(greet("World"), "Hello, World! You've been greeted from Rust!");
    assert_eq!(greet(""), "Hello, ! You've been greeted from Rust!");
}
