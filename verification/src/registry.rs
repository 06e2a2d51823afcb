//! The command registry: the stable operation names of the bridge, the
//! argument count each expects, and the marshalling of results — in
//! particular the rendering of every structured failure to the single
//! descriptive string the caller sees.

use vstd::prelude::*;

use crate::error::FsError;
use crate::fs::{
    after_create_spec, children_spec, copy_err_spec, copy_ok_spec, create_err_spec,
    create_ok_spec, delete_err_spec, delete_ok_spec, file_exists_spec, list_err_spec,
    list_ok_spec, path_views, read_err_spec, read_ok_spec, save_err_spec, save_ok_spec,
    size_err_spec, size_ok_spec, FileSystem,
};
use crate::node::Node;
use crate::paths::{parent_of, parent_of_spec, str_eq};

verus! {

/// The operations the bridge exposes, one per stable command name.
#[derive(Debug, Clone, Copy, PartialEq, Eq, Structural)]
pub enum CommandId {
    CreateDirectory,
    DeleteFile,
    CopyFile,
    FileExists,
    GetFileSize,
    ListDirectory,
    SaveToFile,
    ReadFromFile,
    ShowMessage,
    ConfirmAction,
    SelectFile,
    SaveFileDialog,
    GetAppDir,
}

/// The operation a command name stands for, if any.
pub open spec fn lookup_spec(n: Seq<char>) -> Option<CommandId> {
    if n == "create_directory"@ {
        Some(CommandId::CreateDirectory)
    } else if n == "delete_file"@ {
        Some(CommandId::DeleteFile)
    } else if n == "copy_file"@ {
        Some(CommandId::CopyFile)
    } else if n == "file_exists"@ {
        Some(CommandId::FileExists)
    } else if n == "get_file_size"@ {
        Some(CommandId::GetFileSize)
    } else if n == "list_directory"@ {
        Some(CommandId::ListDirectory)
    } else if n == "save_to_file"@ {
        Some(CommandId::SaveToFile)
    } else if n == "read_from_file"@ {
        Some(CommandId::ReadFromFile)
    } else if n == "show_message"@ {
        Some(CommandId::ShowMessage)
    } else if n == "confirm_action"@ {
        Some(CommandId::ConfirmAction)
    } else if n == "select_file"@ {
        Some(CommandId::SelectFile)
    } else if n == "save_file_dialog"@ {
        Some(CommandId::SaveFileDialog)
    } else if n == "get_app_dir"@ {
        Some(CommandId::GetAppDir)
    } else {
        None
    }
}

/// Matches an incoming command name against the registry. Dispatch of a
/// name that matches nothing is the host runtime's business; the
/// registry merely reports the miss.
pub fn lookup_command(name: &str) -> (r: Option<CommandId>)
    ensures
        r == lookup_spec(name@),
{
    if str_eq(name, "create_directory") {
        Some(CommandId::CreateDirectory)
    } else if str_eq(name, "delete_file") {
        Some(CommandId::DeleteFile)
    } else if str_eq(name, "copy_file") {
        Some(CommandId::CopyFile)
    } else if str_eq(name, "file_exists") {
        Some(CommandId::FileExists)
    } else if str_eq(name, "get_file_size") {
        Some(CommandId::GetFileSize)
    } else if str_eq(name, "list_directory") {
        Some(CommandId::ListDirectory)
    } else if str_eq(name, "save_to_file") {
        Some(CommandId::SaveToFile)
    } else if str_eq(name, "read_from_file") {
        Some(CommandId::ReadFromFile)
    } else if str_eq(name, "show_message") {
        Some(CommandId::ShowMessage)
    } else if str_eq(name, "confirm_action") {
        Some(CommandId::ConfirmAction)
    } else if str_eq(name, "select_file") {
        Some(CommandId::SelectFile)
    } else if str_eq(name, "save_file_dialog") {
        Some(CommandId::SaveFileDialog)
    } else if str_eq(name, "get_app_dir") {
        Some(CommandId::GetAppDir)
    } else {
        None
    }
}

/// How many arguments a command takes across the boundary.
pub open spec fn arity_spec(c: CommandId) -> nat {
    match c {
        CommandId::CreateDirectory => 1,
        CommandId::DeleteFile => 1,
        CommandId::CopyFile => 2,
        CommandId::FileExists => 1,
        CommandId::GetFileSize => 1,
        CommandId::ListDirectory => 1,
        CommandId::SaveToFile => 2,
        CommandId::ReadFromFile => 1,
        CommandId::ShowMessage => 1,
        CommandId::ConfirmAction => 1,
        CommandId::SelectFile => 0,
        CommandId::SaveFileDialog => 1,
        CommandId::GetAppDir => 0,
    }
}

/// Reports how many arguments the command takes.
pub fn arity(c: CommandId) -> (n: usize)
    ensures
        n as nat == arity_spec(c),
{
    match c {
        CommandId::CreateDirectory => 1,
        CommandId::DeleteFile => 1,
        CommandId::CopyFile => 2,
        CommandId::FileExists => 1,
        CommandId::GetFileSize => 1,
        CommandId::ListDirectory => 1,
        CommandId::SaveToFile => 2,
        CommandId::ReadFromFile => 1,
        CommandId::ShowMessage => 1,
        CommandId::ConfirmAction => 1,
        CommandId::SelectFile => 0,
        CommandId::SaveFileDialog => 1,
        CommandId::GetAppDir => 0,
    }
}

/// The fixed opening words of the failure string each operation reports.
/// The commands that cannot fail, and the prompts, contribute nothing.
pub open spec fn failure_prefix_spec(c: CommandId) -> Seq<char> {
    match c {
        CommandId::CreateDirectory => "Failed to create directory: "@,
        CommandId::DeleteFile => "Failed to delete file: "@,
        CommandId::CopyFile => "Failed to copy file: "@,
        CommandId::GetFileSize => "Failed to get file size: "@,
        CommandId::ListDirectory => "Failed to read directory: "@,
        CommandId::SaveToFile => "Failed to create file: "@,
        CommandId::ReadFromFile => "Failed to read file: "@,
        CommandId::GetAppDir => "Failed to get current executable path: "@,
        _ => Seq::<char>::empty(),
    }
}

/// Renders a structured failure to the single descriptive string the
/// caller sees: the command's fixed prefix, then the error's own text.
pub fn failure_message(c: CommandId, e: &FsError) -> (r: String)
    ensures
        r@ == failure_prefix_spec(c) + e.text_spec(),
{
    let prefix = match c {
        CommandId::CreateDirectory => String::from_str("Failed to create directory: "),
        CommandId::DeleteFile => String::from_str("Failed to delete file: "),
        CommandId::CopyFile => String::from_str("Failed to copy file: "),
        CommandId::GetFileSize => String::from_str("Failed to get file size: "),
        CommandId::ListDirectory => String::from_str("Failed to read directory: "),
        CommandId::SaveToFile => String::from_str("Failed to create file: "),
        CommandId::ReadFromFile => String::from_str("Failed to read file: "),
        CommandId::GetAppDir => String::from_str("Failed to get current executable path: "),
        _ => String::new(),
    };
    let text = e.text();
    prefix.concat(text.as_str())
}

/// Folds the per-entry results of a directory read into the listing the
/// caller gets: all or nothing. If every entry was read, the listing
/// holds all of them in order; if reading any single entry failed, the
/// whole call fails with the first such error and no partial results.
pub fn collect_entries(entries: &Vec<Result<String, String>>) -> (r: Result<Vec<String>, String>)
    ensures
        r is Ok <==> (forall|i: int| 0 <= i < entries@.len() ==> #[trigger] entries@[i] is Ok),
        r matches Ok(out) ==> out@.len() == entries@.len() && (forall|i: int|
            0 <= i < entries@.len() ==> (entries@[i] matches Ok(s) ==> #[trigger] out@[i]@
                == s@)),
        r matches Err(msg) ==> exists|i: int|
            0 <= i < entries@.len() && (#[trigger] entries@[i] matches Err(t) && msg@
                == "Failed to read directory entry: "@ + t@) && (forall|j: int|
                0 <= j < i ==> entries@[j] is Ok),
{
    let n = entries.len();
    let mut out: Vec<String> = Vec::new();
    let mut i: usize = 0;
    while i < n
        invariant
            n == entries@.len(),
            i <= n,
            out@.len() == i,
            forall|j: int| 0 <= j < i ==> #[trigger] entries@[j] is Ok,
            forall|j: int|
                0 <= j < i ==> (entries@[j] matches Ok(s) ==> #[trigger] out@[j]@ == s@),
        decreases n - i,
    {
        match &entries[i] {
            Ok(s) => {
                out.push(s.clone());
            },
            Err(t) => {
                let msg = String::from_str("Failed to read directory entry: ").concat(
                    t.as_str(),
                );
                proof {
                    assert(entries@[i as int] matches Err(t2) && msg@
                        == "Failed to read directory entry: "@ + t2@);
                }
                return Err(msg);
            },
        }
        i += 1;
    }
    Ok(out)
}

/// The marshalled success value of one disk command.
#[derive(Debug, PartialEq)]
pub enum CommandValue {
    Unit,
    Truth(bool),
    Size(u64),
    Text(String),
    Listing(Vec<String>),
}

/// The commands that act on the disk alone; the remaining five need the
/// host — a modal user or the running executable's path — beyond it.
pub open spec fn is_disk_command(c: CommandId) -> bool {
    match c {
        CommandId::CreateDirectory => true,
        CommandId::DeleteFile => true,
        CommandId::CopyFile => true,
        CommandId::FileExists => true,
        CommandId::GetFileSize => true,
        CommandId::ListDirectory => true,
        CommandId::SaveToFile => true,
        CommandId::ReadFromFile => true,
        CommandId::ShowMessage => false,
        CommandId::ConfirmAction => false,
        CommandId::SelectFile => false,
        CommandId::SaveFileDialog => false,
        CommandId::GetAppDir => false,
    }
}

/// A failure rendered as the caller sees it: the command's prefix, then
/// the text of some error the operation's contract admits.
pub open spec fn rendered_failure_spec(c: CommandId, m: Seq<char>, e: FsError) -> bool {
    m == failure_prefix_spec(c) + e.text_spec()
}

/// Binds a disk command to its operation on the disk model: runs it on
/// the marshalled arguments and hands back either its success value or
/// its failure rendered to the single descriptive string. Names and
/// argument counts are matched before this point.
pub fn dispatch_disk(f: &mut FileSystem, cmd: CommandId, args: &Vec<String>) -> (r: Result<
    CommandValue,
    String,
>)
    requires
        old(f).wf(),
        is_disk_command(cmd),
        args@.len() == arity_spec(cmd),
    ensures
        final(f).wf(),
        match cmd {
            CommandId::CreateDirectory => {
                &&& (r is Ok <==> create_ok_spec(old(f)@, args@[0]@))
                &&& (r matches Ok(v) ==> v is Unit && final(f)@ == after_create_spec(
                    old(f)@,
                    args@[0]@,
                ))
                &&& (r matches Err(m) ==> final(f)@ == old(f)@ && (exists|e: FsError|
                    #[trigger] create_err_spec(old(f)@, args@[0]@, e)
                        && rendered_failure_spec(cmd, m@, e)))
            },
            CommandId::DeleteFile => {
                &&& (r is Ok <==> delete_ok_spec(old(f)@, args@[0]@))
                &&& (r matches Ok(v) ==> v is Unit && final(f)@ == old(f)@.remove(args@[0]@))
                &&& (r matches Err(m) ==> final(f)@ == old(f)@ && (exists|e: FsError|
                    #[trigger] delete_err_spec(old(f)@, args@[0]@, e)
                        && rendered_failure_spec(cmd, m@, e)))
            },
            CommandId::CopyFile => {
                &&& (r is Ok <==> copy_ok_spec(old(f)@, args@[0]@, args@[1]@))
                &&& (r matches Ok(v) ==> v is Unit && final(f)@ == old(f)@.insert(
                    args@[1]@,
                    old(f)@[args@[0]@],
                ))
                &&& (r matches Err(m) ==> final(f)@ == old(f)@ && (exists|e: FsError|
                    #[trigger] copy_err_spec(old(f)@, args@[0]@, args@[1]@, e)
                        && rendered_failure_spec(cmd, m@, e)))
            },
            CommandId::FileExists => {
                &&& final(f)@ == old(f)@
                &&& r matches Ok(v) && v matches CommandValue::Truth(b) && b
                    == file_exists_spec(old(f)@, args@[0]@)
            },
            CommandId::GetFileSize => {
                &&& final(f)@ == old(f)@
                &&& (r is Ok <==> size_ok_spec(old(f)@, args@[0]@))
                &&& (r matches Ok(v) ==> v matches CommandValue::Size(n) && (old(f)@[args@[0]@]
                    .is_file() ==> n as nat == old(f)@[args@[0]@].size()))
                &&& (r matches Err(m) ==> exists|e: FsError|
                    #[trigger] size_err_spec(old(f)@, args@[0]@, e) && rendered_failure_spec(
                        cmd,
                        m@,
                        e,
                    ))
            },
            CommandId::ListDirectory => {
                &&& final(f)@ == old(f)@
                &&& (r is Ok <==> list_ok_spec(old(f)@, args@[0]@))
                &&& (r matches Ok(v) ==> v matches CommandValue::Listing(l) && path_views(
                    l@,
                ).no_duplicates() && path_views(l@).to_set() == children_spec(
                    old(f)@,
                    args@[0]@,
                ) && l@.len() == children_spec(old(f)@, args@[0]@).len())
                &&& (r matches Err(m) ==> exists|e: FsError|
                    #[trigger] list_err_spec(old(f)@, args@[0]@, e) && rendered_failure_spec(
                        cmd,
                        m@,
                        e,
                    ))
            },
            CommandId::SaveToFile => {
                &&& (r is Ok <==> save_ok_spec(old(f)@, args@[0]@))
                &&& (r matches Ok(v) ==> v is Unit && final(f)@ == old(f)@.insert(
                    args@[0]@,
                    Node::TextFile { content: args@[1]@, denied: false },
                ))
                &&& (r matches Err(m) ==> final(f)@ == old(f)@ && (exists|e: FsError|
                    #[trigger] save_err_spec(old(f)@, args@[0]@, e) && rendered_failure_spec(
                        cmd,
                        m@,
                        e,
                    )))
            },
            CommandId::ReadFromFile => {
                &&& final(f)@ == old(f)@
                &&& (r is Ok <==> read_ok_spec(old(f)@, args@[0]@))
                &&& (r matches Ok(v) ==> v matches CommandValue::Text(s) && old(f)@[args@[0]@]
                    == (Node::TextFile { content: s@, denied: false }))
                &&& (r matches Err(m) ==> exists|e: FsError|
                    #[trigger] read_err_spec(old(f)@, args@[0]@, e) && rendered_failure_spec(
                        cmd,
                        m@,
                        e,
                    ))
            },
            _ => false,
        },
{
    match cmd {
        CommandId::CreateDirectory => match f.create_directory(args[0].clone()) {
            Ok(_) => Ok(CommandValue::Unit),
            Err(e) => Err(failure_message(cmd, &e)),
        },
        CommandId::DeleteFile => match f.delete_file(args[0].clone()) {
            Ok(_) => Ok(CommandValue::Unit),
            Err(e) => Err(failure_message(cmd, &e)),
        },
        CommandId::CopyFile => match f.copy_file(args[0].clone(), args[1].clone()) {
            Ok(_) => Ok(CommandValue::Unit),
            Err(e) => Err(failure_message(cmd, &e)),
        },
        CommandId::FileExists => Ok(CommandValue::Truth(f.file_exists(args[0].clone()))),
        CommandId::GetFileSize => match f.get_file_size(args[0].clone()) {
            Ok(n) => Ok(CommandValue::Size(n)),
            Err(e) => Err(failure_message(cmd, &e)),
        },
        CommandId::ListDirectory => match f.list_directory(args[0].clone()) {
            Ok(l) => Ok(CommandValue::Listing(l)),
            Err(e) => Err(failure_message(cmd, &e)),
        },
        CommandId::SaveToFile => match f.save_to_file(args[0].clone(), args[1].clone()) {
            Ok(_) => Ok(CommandValue::Unit),
            Err(e) => Err(failure_message(cmd, &e)),
        },
        CommandId::ReadFromFile => match f.read_from_file(args[0].clone()) {
            Ok(s) => Ok(CommandValue::Text(s)),
            Err(e) => Err(failure_message(cmd, &e)),
        },
        _ => Err(String::new()),
    }
}

/// The directory the running executable sits in, computed from the
/// executable's path as the host reports it; fails when that path has no
/// parent, with the fixed message the bridge promises.
pub fn get_app_dir(exe_path: &str) -> (r: Result<String, String>)
    ensures
        match parent_of_spec(exe_path@) {
            Some(d) => r matches Ok(s) && s@ == d,
            None => r matches Err(m) && m@ == "Failed to get parent directory"@,
        },
{
    match parent_of(exe_path) {
        Some(d) => Ok(d),
        None => Err(String::from_str("Failed to get parent directory")),
    }
}

/// The sample greeting of the host scaffold.
pub fn greet(name: &str) -> (r: String)
    ensures
        r@ == "Hello, "@ + name@ + "! You've been greeted from Rust!"@,
{
    String::from_str("Hello, ").concat(name).concat("! You've been greeted from Rust!")
}

} // verus!
