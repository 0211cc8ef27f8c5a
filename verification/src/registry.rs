//! The values written into the shell's menu registration: each entry binds
//! this program's executable to one flag, with a placeholder the shell
//! replaces by the clicked path or target folder at invocation time.

use vstd::prelude::*;
use vstd::string::StringExecFns;

verus! {

/// The command line a copy menu entry registers: the quoted executable, the
/// `--copy` flag, and the shell's placeholder for the clicked file or folder.
pub fn copy_menu_command(exe_path: &str) -> (cmd: String)
    ensures
        cmd@ == "\""@ + exe_path@ + "\" \"--copy\" \"%1\""@,
{
    let mut cmd: String = "\"".to_owned();
    cmd.append(exe_path);
    cmd.append("\" \"--copy\" \"%1\"");
    cmd
}

/// The command line a paste menu entry registers: the quoted executable, the
/// `--paste` flag, and the shell's placeholder for the folder background the
/// click landed on.
pub fn paste_menu_command(exe_path: &str) -> (cmd: String)
    ensures
        cmd@ == "\""@ + exe_path@ + "\" \"--paste\" \"%V\""@,
{
    let mut cmd: String = "\"".to_owned();
    cmd.append(exe_path);
    cmd.append("\" \"--paste\" \"%V\"");
    cmd
}

/// The icon value a menu entry registers: the executable path with the index
/// of its first embedded icon.
pub fn menu_icon_value(exe_path: &str) -> (icon: String)
    ensures
        icon@ == exe_path@ + ",0"@,
{
    let mut icon: String = exe_path.to_owned();
    icon.append(",0");
    icon
}

} // verus!
