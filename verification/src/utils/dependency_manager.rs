//! Installing what a library needs. Running the package manager is the
//! caller's part; which command to run, and what its exit means, is decided
//! here.

use crate::types::{get_library_config, Library, PackageManager};
use vstd::prelude::*;

verus! {

/// A command: the program to run and its arguments.
#[derive(Debug)]
pub struct InstallCommand {
    pub program: String,
    pub args: Vec<String>,
}

/// The installation failed; `code` is the exit code of the package manager,
/// if it left one.
#[derive(Debug, Clone, Copy, PartialEq, Eq, Structural)]
pub struct InstallError {
    pub code: Option<i32>,
}

impl PackageManager {
    /// The word after which the package manager takes packages to add.
    pub open spec fn install_word(self) -> Seq<char> {
        match self {
            PackageManager::Npm => "install"@,
            PackageManager::Yarn => "add"@,
            PackageManager::Pnpm => "add"@,
        }
    }
}

/// The arguments with which `package_manager` installs `library`: the word
/// for adding packages, the packages, and the flag that records them in the
/// manifest.
pub open spec fn install_args(library: Library, package_manager: PackageManager) -> Seq<
    Seq<char>,
> {
    seq![package_manager.install_word()] + library.install_list() + seq!["--save"@]
}

/// The command that installs what `library` needs with `package_manager`.
pub fn install_dependencies(library: Library, package_manager: &PackageManager) -> (command:
    InstallCommand)
    ensures
        command.program@ == package_manager.program(),
        command.args.deep_view() == install_args(library, *package_manager),
{
    let config = get_library_config(library);
    let (program, word) = match package_manager {
        PackageManager::Npm => ("npm", "install"),
        PackageManager::Yarn => ("yarn", "add"),
        PackageManager::Pnpm => ("pnpm", "add"),
    };
    let mut args: Vec<String> = Vec::new();
    args.push(word.to_string());
    let mut i: usize = 0;
    while i < config.dependencies.len()
        invariant
            i <= config.dependencies@.len(),
            args.deep_view() == seq![package_manager.install_word()]
                + config.dependencies.deep_view().take(i as int),
        decreases config.dependencies@.len() - i,
    {
        let ghost before = args.deep_view();
        let package = config.dependencies[i].clone();
        args.push(package);
        assert(args.deep_view() =~= before.push(package@));
        assert(config.dependencies.deep_view().take(i + 1) =~= config.dependencies.deep_view().take(
            i as int,
        ).push(package@));
        i += 1;
    }
    args.push("--save".to_string());
    assert(config.dependencies.deep_view().take(i as int) =~= library.install_list());
    assert(args.deep_view() =~= install_args(library, *package_manager));
    InstallCommand { program: program.to_string(), args }
}

/// What the exit of the package manager means: success, or a failure that
/// carries the exit code.
pub fn installation_result(succeeded: bool, code: Option<i32>) -> (result: Result<
    (),
    InstallError,
>)
    ensures
        result == if succeeded {
            Ok::<(), InstallError>(())
        } else {
            Err::<(), InstallError>(InstallError { code })
        },
{
    if succeeded {
        Ok(())
    } else {
        Err(InstallError { code })
    }
}

} // verus!
