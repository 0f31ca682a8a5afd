//! Where the targets file is looked for.

use std::path::PathBuf;
use vstd::prelude::*;

verus! {

/// The name of the targets file.
pub const TARGETS_FILE_NAME: &'static str = ".vm-targets.json";

/// The owned path of std.
#[verifier::external_type_specification]
#[verifier::external_body]
pub struct ExPathBuf(std::path::PathBuf);

/// What `Path::join` makes of a path and the text of a second one.
pub uninterp spec fn path_joined(base: PathBuf, tail: Seq<char>) -> PathBuf;

/// What `Path::display` shows of a path.
pub uninterp spec fn path_displayed(path: PathBuf) -> Seq<char>;

/// `Path::join`: `tail` adjoined to `base`, with the separator of the platform that the crate is
/// compiled for. The form of the result is left to the name `path_joined`.
#[verifier::external_body]
fn path_join(base: &PathBuf, tail: &str) -> (res: PathBuf)
    ensures
        res == path_joined(*base, tail@),
{
    base.join(tail)
}

/// `Path::display`, as a string: the path as text, lossy where the path is not Unicode. The form
/// of the text is left to the name `path_displayed`.
#[verifier::external_body]
pub(crate) fn path_text(path: &PathBuf) -> (res: String)
    ensures
        res@ == path_displayed(*path),
{
    path.display().to_string()
}

/// The directories that the environment offers for per-user configuration.
#[derive(Debug)]
pub struct UserDirs {
    /// Whether the platform is Windows.
    pub windows: bool,
    /// `APPDATA`.
    pub appdata: Option<PathBuf>,
    /// `XDG_CONFIG_HOME`.
    pub xdg_config_home: Option<PathBuf>,
    /// `HOME`.
    pub home: Option<PathBuf>,
    /// The directory for temporary files.
    pub temp_dir: PathBuf,
}

/// The per-user configuration directory: below `APPDATA` on Windows; elsewhere below
/// `XDG_CONFIG_HOME`, or else below `.config` in the home directory; where none of these is set,
/// below the directory for temporary files.
pub open spec fn config_dir(dirs: UserDirs) -> PathBuf {
    if dirs.windows && dirs.appdata is Some {
        path_joined(dirs.appdata->0, "vm-remoting"@)
    } else if !dirs.windows && dirs.xdg_config_home is Some {
        path_joined(dirs.xdg_config_home->0, "vm-remoting"@)
    } else if !dirs.windows && dirs.home is Some {
        path_joined(path_joined(dirs.home->0, ".config"@), "vm-remoting"@)
    } else {
        path_joined(dirs.temp_dir, "vm-remoting"@)
    }
}

/// The targets file: the first of an explicit file, the file in an explicit directory, an
/// existing file in the working directory, and the file in the per-user directory.
pub open spec fn picked(
    file_env: Option<PathBuf>,
    dir_env: Option<PathBuf>,
    cwd_config: Option<PathBuf>,
    os_dir: PathBuf,
) -> PathBuf {
    match (file_env, dir_env, cwd_config) {
        (Some(f), _, _) => f,
        (None, Some(dir), _) => path_joined(dir, TARGETS_FILE_NAME@),
        (None, None, Some(cwd)) => cwd,
        (None, None, None) => path_joined(os_dir, TARGETS_FILE_NAME@),
    }
}

/// Precedence of the places for the targets file: explicit file, then config dir, then an
/// existing cwd config, then the OS config dir.
pub fn pick_targets_file(
    file_env: Option<PathBuf>,
    dir_env: Option<PathBuf>,
    cwd_config: Option<PathBuf>,
    os_dir: &PathBuf,
) -> (res: PathBuf)
    ensures
        res == picked(file_env, dir_env, cwd_config, *os_dir),
{
    if let Some(f) = file_env {
        return f;
    }
    if let Some(dir) = dir_env {
        return path_join(&dir, TARGETS_FILE_NAME);
    }
    if let Some(cwd) = cwd_config {
        return cwd;
    }
    path_join(os_dir, TARGETS_FILE_NAME)
}

/// OS-standard per-user config directory for this tool (no overrides; those are handled in
/// [`targets_file`]).
pub fn os_config_dir(dirs: &UserDirs) -> (res: PathBuf)
    ensures
        res == config_dir(*dirs),
{
    if dirs.windows {
        if let Some(appdata) = &dirs.appdata {
            return path_join(appdata, "vm-remoting");
        }
    } else {
        if let Some(xdg) = &dirs.xdg_config_home {
            return path_join(xdg, "vm-remoting");
        }
        if let Some(home) = &dirs.home {
            return path_join(&path_join(home, ".config"), "vm-remoting");
        }
    }
    path_join(&dirs.temp_dir, "vm-remoting")
}

/// Locates the targets file from the overrides, the working directory and the user's
/// directories.
pub fn targets_file(
    file_env: Option<PathBuf>,
    dir_env: Option<PathBuf>,
    cwd_config: Option<PathBuf>,
    dirs: &UserDirs,
) -> (res: PathBuf)
    ensures
        res == picked(file_env, dir_env, cwd_config, config_dir(*dirs)),
{
    pick_targets_file(file_env, dir_env, cwd_config, &os_config_dir(dirs))
}

/// The first place that is given wins, whatever the later ones are: an explicit file is taken as
/// it is, then an explicit directory decides, then a file in the working directory, and the
/// per-user directory is asked last.
pub proof fn first_match_wins(
    file: PathBuf,
    dir: PathBuf,
    cwd: PathBuf,
    dir_env: Option<PathBuf>,
    cwd_config: Option<PathBuf>,
    os_dir: PathBuf,
)
    ensures
        picked(Some(file), dir_env, cwd_config, os_dir) == file,
        picked(None, Some(dir), cwd_config, os_dir) == path_joined(dir, TARGETS_FILE_NAME@),
        picked(None, None, Some(cwd), os_dir) == cwd,
        picked(None, None, None, os_dir) == path_joined(os_dir, TARGETS_FILE_NAME@),
{
}

/// On Windows only `APPDATA` counts, elsewhere only `XDG_CONFIG_HOME` and `HOME`; the directory
/// for temporary files counts only where none of those is set.
pub proof fn platforms_use_their_own_variables(a: UserDirs, b: UserDirs)
    requires
        a.windows == b.windows,
        a.windows ==> a.appdata == b.appdata,
        !a.windows ==> a.xdg_config_home == b.xdg_config_home && a.home == b.home,
        (a.windows && a.appdata is None) || (!a.windows && a.xdg_config_home is None && a.home is None)
            ==> a.temp_dir == b.temp_dir,
    ensures
        config_dir(a) == config_dir(b),
{
}

/// Where each per-user configuration directory is.
pub proof fn config_dir_in_full(
    dir: PathBuf,
    appdata: Option<PathBuf>,
    xdg_config_home: Option<PathBuf>,
    home: Option<PathBuf>,
    temp_dir: PathBuf,
)
    ensures
        config_dir(
            UserDirs { windows: true, appdata: Some(dir), xdg_config_home, home, temp_dir },
        ) == path_joined(dir, "vm-remoting"@),
        config_dir(
            UserDirs { windows: false, appdata, xdg_config_home: Some(dir), home, temp_dir },
        ) == path_joined(dir, "vm-remoting"@),
        config_dir(
            UserDirs { windows: false, appdata, xdg_config_home: None, home: Some(dir), temp_dir },
        ) == path_joined(path_joined(dir, ".config"@), "vm-remoting"@),
        config_dir(
            UserDirs { windows: true, appdata: None, xdg_config_home, home, temp_dir },
        ) == path_joined(temp_dir, "vm-remoting"@),
        config_dir(
            UserDirs { windows: false, appdata, xdg_config_home: None, home: None, temp_dir },
        ) == path_joined(temp_dir, "vm-remoting"@),
{
}

} // verus!
