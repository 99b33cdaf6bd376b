//! The command registry: the set of operations the front end may invoke
//! through the framework's invocation bridge, under their invocation names.
//!
//! Both the desktop and the mobile entry point register this same set.

use vstd::prelude::*;
use vstd::string::StringExecFns;

verus! {

/// One callable operation of the backend.
#[derive(Clone, Copy, Debug, PartialEq, Eq, Structural)]
pub enum Command {
    Greet,
    SaveFileDialog,
    OpenFileDialog,
    ShowNotification,
    GetAppVersion,
}

impl Command {
    /// The invocation name under which the front end calls this command.
    pub open spec fn spec_name(&self) -> Seq<char> {
        match self {
            Command::Greet => "greet"@,
            Command::SaveFileDialog => "save_file_dialog"@,
            Command::OpenFileDialog => "open_file_dialog"@,
            Command::ShowNotification => "show_notification"@,
            Command::GetAppVersion => "get_app_version"@,
        }
    }

    /// Returns this command's invocation name.
    pub fn name(&self) -> (r: String)
        ensures
            r@ == self.spec_name(),
    {
        match self {
            Command::Greet => String::from_str("greet"),
            Command::SaveFileDialog => String::from_str("save_file_dialog"),
            Command::OpenFileDialog => String::from_str("open_file_dialog"),
            Command::ShowNotification => String::from_str("show_notification"),
            Command::GetAppVersion => String::from_str("get_app_version"),
        }
    }
}

/// The full command set, in registration order, as every entry point hands
/// it to the invocation bridge.
pub fn registered_commands() -> (r: Vec<Command>)
    ensures
        r@ == seq![
            Command::Greet,
            Command::SaveFileDialog,
            Command::OpenFileDialog,
            Command::ShowNotification,
            Command::GetAppVersion,
        ],
{
    let mut r: Vec<Command> = Vec::new();
    r.push(Command::Greet);
    r.push(Command::SaveFileDialog);
    r.push(Command::OpenFileDialog);
    r.push(Command::ShowNotification);
    r.push(Command::GetAppVersion);
    proof {
        assert(r@ =~= seq![
            Command::Greet,
            Command::SaveFileDialog,
            Command::OpenFileDialog,
            Command::ShowNotification,
            Command::GetAppVersion,
        ]);
    }
    r
}

} // verus!
