//! Where the settings file lives: the per-application configuration
//! directory that the operating system's conventions give.

use vstd::prelude::*;

verus! {

#[verifier::external_type_specification]
#[verifier::external_body]
pub struct ExProjectDirs(directories::ProjectDirs);

#[verifier::external_type_specification]
#[verifier::external_body]
pub struct ExPathBuf(std::path::PathBuf);

/// The reverse-domain qualifier of the application's identifier.
pub const QUALIFIER: &'static str = "jp";

/// The organization in the application's identifier.
pub const ORGANIZATION: &'static str = "techtalk";

/// The application's name in its identifier.
pub const APPLICATION: &'static str = "clip-translator";

/// The name of the settings file inside the configuration directory.
pub const FILE_NAME: &'static str = "clip-translator.json";

/// `directories::ProjectDirs::from` reads the user's home directory from the
/// environment, so nothing is claimed of what it returns.
pub assume_specification[ directories::ProjectDirs::from ](
    qualifier: &str,
    organization: &str,
    application: &str,
) -> (dirs: Option<directories::ProjectDirs>)
;

/// The configuration directory that a `directories::ProjectDirs` holds.
pub uninterp spec fn config_dir_of(dirs: directories::ProjectDirs) -> std::path::PathBuf;

/// Calls `directories::ProjectDirs::config_dir` and copies the path it
/// lends. Claims only that the path is a function of the directories it is
/// asked of, named [`config_dir_of`]: which path it is was settled, from the
/// platform and the environment, when they were made.
#[verifier::external_body]
fn config_directory(dirs: &directories::ProjectDirs) -> (directory: std::path::PathBuf)
    ensures
        directory == config_dir_of(*dirs),
{
    dirs.config_dir().to_path_buf()
}

/// The path that `std::path::Path::join` makes of a directory and a name.
pub uninterp spec fn joined(directory: std::path::PathBuf, name: Seq<char>) -> std::path::PathBuf;

/// Calls `std::path::Path::join`. Claims only that the path is a function of
/// the directory and the name, named [`joined`].
#[verifier::external_body]
fn child_path(directory: &std::path::PathBuf, name: &str) -> (path: std::path::PathBuf)
    ensures
        path == joined(*directory, name@),
{
    directory.join(name)
}

/// The configuration directory and the settings file in it. The file is
/// always the one named [`FILE_NAME`] in the directory.
pub struct ConfigLocation {
    directory: std::path::PathBuf,
    file: std::path::PathBuf,
}

impl ConfigLocation {
    #[verifier::type_invariant]
    spec fn file_in_directory(self) -> bool {
        self.file == joined(self.directory, FILE_NAME@)
    }

    /// The settings file named [`FILE_NAME`] in `directory`.
    pub fn within(directory: std::path::PathBuf) -> (location: ConfigLocation)
        ensures
            location.directory_spec() == directory,
            location.file_spec() == joined(directory, FILE_NAME@),
    {
        let file = child_path(&directory, FILE_NAME);
        ConfigLocation { directory, file }
    }

    /// The directory, as a value in contracts.
    pub closed spec fn directory_spec(&self) -> std::path::PathBuf {
        self.directory
    }

    /// The file, as a value in contracts.
    pub closed spec fn file_spec(&self) -> std::path::PathBuf {
        self.file
    }

    /// The configuration directory.
    pub fn directory(&self) -> (path: &std::path::PathBuf)
        ensures
            *path == self.directory_spec(),
    {
        &self.directory
    }

    /// The settings file.
    pub fn file(&self) -> (path: &std::path::PathBuf)
        ensures
            *path == self.file_spec(),
            *path == joined(self.directory_spec(), FILE_NAME@),
    {
        proof {
            use_type_invariant(self);
        }
        &self.file
    }
}

/// The location of the settings file, from what the platform gave as the
/// project's directories: the file named [`FILE_NAME`] in their configuration
/// directory, and none where the platform gave none.
pub fn locate(dirs: Option<directories::ProjectDirs>) -> (location: Option<ConfigLocation>)
    ensures
        match dirs {
            Some(found) => location matches Some(place) && place.directory_spec()
                == config_dir_of(found) && place.file_spec() == joined(
                config_dir_of(found),
                FILE_NAME@,
            ),
            None => location is None,
        },
{
    match dirs {
        Some(found) => Some(ConfigLocation::within(config_directory(&found))),
        None => None,
    }
}

/// Resolves the location of the settings file for the current user, from the
/// application's fixed three-part identifier. `None` where the platform gives
/// no home directory. Which directory it is depends on the environment, so
/// two calls may differ; the file is always the one named [`FILE_NAME`] in it.
pub fn config_location() -> (location: Option<ConfigLocation>)
    ensures
        location matches Some(place) ==> place.file_spec() == joined(
            place.directory_spec(),
            FILE_NAME@,
        ),
{
    locate(directories::ProjectDirs::from(QUALIFIER, ORGANIZATION, APPLICATION))
}

} // verus!
