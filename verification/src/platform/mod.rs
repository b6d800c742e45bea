//! What differs from one operating system to the next.

pub mod linux;
pub mod macos;
pub mod windows;

use vstd::prelude::*;
use vstd::string::*;
use crate::text::{join_path, joined};
use crate::update::QueryOutput;

verus! {

/// The operating systems that the application runs on.
#[derive(Clone, Copy, Debug, PartialEq, Eq, Structural)]
pub enum Platform {
    Linux,
    MacOs,
    Windows,
}

/// Prepares the application for the operating system it runs on.
pub fn init(platform: Platform) {
    match platform {
        Platform::Linux => linux::init(),
        Platform::MacOs => macos::init(),
        Platform::Windows => windows::init(),
    }
}

/// Why a place could not be told.
#[derive(Clone, Copy, Debug, PartialEq, Eq, Structural)]
pub enum PlatformError {
    /// The directory of the application's resources is not known.
    NoResourceDir,
    /// The environment that ships with the application is not there.
    BundledVenvMissing,
}

/// Name of the directory that holds an environment's commands.
pub open spec fn bin_dir_name(platform: Platform) -> Seq<char> {
    match platform {
        Platform::Windows => "Scripts"@,
        _ => "bin"@,
    }
}

/// Name of an environment's interpreter.
pub open spec fn python_name(platform: Platform) -> Seq<char> {
    match platform {
        Platform::Windows => "python.exe"@,
        _ => "python"@,
    }
}

/// Name under which the system's own interpreter is found.
pub open spec fn system_python(platform: Platform) -> Seq<char> {
    match platform {
        Platform::Windows => "python"@,
        _ => "python3"@,
    }
}

/// The user's environment: `venv` in the application's data.
pub open spec fn user_venv_of(data_dir: Seq<char>) -> Seq<char> {
    joined(data_dir, "venv"@)
}

/// The environment that ships with the application: `python` among its
/// resources.
pub open spec fn bundled_venv_of(resource_dir: Seq<char>) -> Seq<char> {
    joined(resource_dir, "python"@)
}

/// The directory of the commands of the environment `venv`.
pub open spec fn venv_bin_of(platform: Platform, venv: Seq<char>) -> Seq<char> {
    joined(venv, bin_dir_name(platform))
}

/// The interpreter of the environment `venv`.
pub open spec fn venv_python_of(platform: Platform, venv: Seq<char>) -> Seq<char> {
    joined(venv_bin_of(platform, venv), python_name(platform))
}

/// Writes the user's environment.
pub fn user_venv(data_dir: &str) -> (path: String)
    ensures
        path@ == user_venv_of(data_dir@),
{
    join_path(data_dir, "venv")
}

/// Writes the environment that ships with the application.
pub fn bundled_venv(resource_dir: &str) -> (path: String)
    ensures
        path@ == bundled_venv_of(resource_dir@),
{
    join_path(resource_dir, "python")
}

/// Writes the directory of the commands of the environment `venv`.
pub fn venv_bin(platform: Platform, venv: &str) -> (path: String)
    ensures
        path@ == venv_bin_of(platform, venv@),
{
    match platform {
        Platform::Windows => join_path(venv, "Scripts"),
        _ => join_path(venv, "bin"),
    }
}

/// Writes the interpreter of the environment `venv`.
pub fn venv_python(platform: Platform, venv: &str) -> (path: String)
    ensures
        path@ == venv_python_of(platform, venv@),
{
    let bin = venv_bin(platform, venv);
    match platform {
        Platform::Windows => join_path(bin.as_str(), "python.exe"),
        _ => join_path(bin.as_str(), "python"),
    }
}

/// The view of a place that may not be known.
pub open spec fn place_view(r: Result<String, PlatformError>) -> Result<Seq<char>, PlatformError> {
    match r {
        Ok(path) => Ok(path@),
        Err(e) => Err(e),
    }
}

/// The interpreter to use: the user's environment's if it is there; else
/// the shipped environment's if it is there; else the system's own. Without
/// the user's interpreter the resources have to be known.
pub open spec fn python_path_of(
    platform: Platform,
    data_dir: Seq<char>,
    user_python_exists: bool,
    resource_dir: Option<Seq<char>>,
    bundled_python_exists: bool,
) -> Result<Seq<char>, PlatformError> {
    if user_python_exists {
        Ok(venv_python_of(platform, user_venv_of(data_dir)))
    } else {
        match resource_dir {
            None => Err(PlatformError::NoResourceDir),
            Some(dir) => if bundled_python_exists {
                Ok(venv_python_of(platform, bundled_venv_of(dir)))
            } else {
                Ok(system_python(platform))
            },
        }
    }
}

/// The view of a text that may not be there.
pub open spec fn dir_view(dir: Option<&str>) -> Option<Seq<char>> {
    match dir {
        Some(d) => Some(d@),
        None => None,
    }
}

/// Tells the interpreter to use. `user_python_exists` and
/// `bundled_python_exists` say whether the interpreters of the user's and of
/// the shipped environment are there.
pub fn get_python_path(
    platform: Platform,
    data_dir: &str,
    user_python_exists: bool,
    resource_dir: Option<&str>,
    bundled_python_exists: bool,
) -> (r: Result<String, PlatformError>)
    ensures
        place_view(r) == python_path_of(
            platform,
            data_dir@,
            user_python_exists,
            dir_view(resource_dir),
            bundled_python_exists,
        ),
{
    if user_python_exists {
        let venv = user_venv(data_dir);
        return Ok(venv_python(platform, venv.as_str()));
    }
    match resource_dir {
        None => Err(PlatformError::NoResourceDir),
        Some(dir) => {
            if bundled_python_exists {
                let venv = bundled_venv(dir);
                Ok(venv_python(platform, venv.as_str()))
            } else {
                match platform {
                    Platform::Windows => Ok(String::from_str("python")),
                    _ => Ok(String::from_str("python3")),
                }
            }
        },
    }
}

/// The directory of the tool's commands: the user's environment's if it is
/// there, else the shipped environment's, for which the resources have to be
/// known.
pub open spec fn venv_bin_dir_of(
    platform: Platform,
    data_dir: Seq<char>,
    user_bin_exists: bool,
    resource_dir: Option<Seq<char>>,
) -> Result<Seq<char>, PlatformError> {
    if user_bin_exists {
        Ok(venv_bin_of(platform, user_venv_of(data_dir)))
    } else {
        match resource_dir {
            None => Err(PlatformError::NoResourceDir),
            Some(dir) => Ok(venv_bin_of(platform, bundled_venv_of(dir))),
        }
    }
}

/// Tells the directory of the tool's commands. `user_bin_exists` says
/// whether that of the user's environment is there.
pub fn get_venv_bin(
    platform: Platform,
    data_dir: &str,
    user_bin_exists: bool,
    resource_dir: Option<&str>,
) -> (r: Result<String, PlatformError>)
    ensures
        place_view(r) == venv_bin_dir_of(
            platform,
            data_dir@,
            user_bin_exists,
            dir_view(resource_dir),
        ),
{
    if user_bin_exists {
        let venv = user_venv(data_dir);
        return Ok(venv_bin(platform, venv.as_str()));
    }
    match resource_dir {
        None => Err(PlatformError::NoResourceDir),
        Some(dir) => {
            let venv = bundled_venv(dir);
            Ok(venv_bin(platform, venv.as_str()))
        },
    }
}

/// What has to be done for the user to have an environment.
#[derive(Clone, Debug, PartialEq, Eq)]
pub enum VenvSetup {
    /// Nothing: it is there.
    AlreadyThere,
    /// Copy the directory `from`, with all that is in it, to `to`.
    Copy { from: String, to: String },
}

/// What a setup says.
pub ghost enum VenvSetupView {
    AlreadyThere,
    Copy { from: Seq<char>, to: Seq<char> },
}

impl View for VenvSetup {
    type V = VenvSetupView;

    open spec fn view(&self) -> VenvSetupView {
        match *self {
            VenvSetup::AlreadyThere => VenvSetupView::AlreadyThere,
            VenvSetup::Copy { from, to } => VenvSetupView::Copy { from: from@, to: to@ },
        }
    }
}

/// The view of a setup that may not be possible.
pub open spec fn setup_view(r: Result<VenvSetup, PlatformError>) -> Result<
    VenvSetupView,
    PlatformError,
> {
    match r {
        Ok(setup) => Ok(setup@),
        Err(e) => Err(e),
    }
}

/// What has to be done for the user to have an environment: nothing where
/// its interpreter is there; else the shipped environment is copied, for
/// which the resources have to be known and the shipped environment has to
/// be there.
pub open spec fn venv_setup_of(
    data_dir: Seq<char>,
    user_python_exists: bool,
    resource_dir: Option<Seq<char>>,
    bundled_venv_exists: bool,
) -> Result<VenvSetupView, PlatformError> {
    if user_python_exists {
        Ok(VenvSetupView::AlreadyThere)
    } else {
        match resource_dir {
            None => Err(PlatformError::NoResourceDir),
            Some(dir) => if bundled_venv_exists {
                Ok(VenvSetupView::Copy { from: bundled_venv_of(dir), to: user_venv_of(data_dir) })
            } else {
                Err(PlatformError::BundledVenvMissing)
            },
        }
    }
}

/// Tells what has to be done for the user to have an environment.
/// `user_python_exists` says whether the interpreter of the user's
/// environment is there, `bundled_venv_exists` whether the shipped
/// environment is.
pub fn ensure_user_venv(
    data_dir: &str,
    user_python_exists: bool,
    resource_dir: Option<&str>,
    bundled_venv_exists: bool,
) -> (r: Result<VenvSetup, PlatformError>)
    ensures
        setup_view(r) == venv_setup_of(
            data_dir@,
            user_python_exists,
            dir_view(resource_dir),
            bundled_venv_exists,
        ),
{
    if user_python_exists {
        return Ok(VenvSetup::AlreadyThere);
    }
    match resource_dir {
        None => Err(PlatformError::NoResourceDir),
        Some(dir) => {
            if bundled_venv_exists {
                Ok(VenvSetup::Copy { from: bundled_venv(dir), to: user_venv(data_dir) })
            } else {
                Err(PlatformError::BundledVenvMissing)
            }
        },
    }
}

/// Tells whether the tool is installed: whether the version query ran and
/// reported success.
pub fn is_esphome_ready(query: &QueryOutput) -> (ready: bool)
    ensures
        ready == (*query is Succeeded),
{
    match query {
        QueryOutput::Succeeded { .. } => true,
        _ => false,
    }
}

} // verus!
