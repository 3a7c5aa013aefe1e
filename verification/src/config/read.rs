//! Where the configuration is looked for: `~/.nenechi`, then
//! `~/.config/nenechi`, then `/etc/nenechi`, the first that holds
//! `config.yaml`. Reading the environment and probing the disk is the app's.

use vstd::prelude::*;
use crate::fs::{join_path, joined_path};
use crate::text::owned;

verus! {

/// The name of the main configuration file.
pub const CONFIG_FILE_NAME: &'static str = "config.yaml";

/// The directory searched last, whatever the home directory.
pub const SYSTEM_CONFIG_DIRECTORY: &'static str = "/etc/nenechi";

/// The directories searched for the configuration, in order: two under the
/// home directory when it is known, then the system directory.
pub open spec fn config_dir_candidates(home: Option<Seq<char>>) -> Seq<Seq<char>> {
    match home {
        Some(h) => seq![
            joined_path(h, ".nenechi"@),
            joined_path(joined_path(h, ".config"@), "nenechi"@),
            SYSTEM_CONFIG_DIRECTORY@,
        ],
        None => seq![SYSTEM_CONFIG_DIRECTORY@],
    }
}

/// The directories searched for the configuration, given the home
/// directory (`HOME`) if it is set.
pub fn config_directory_candidates(home: Option<&str>) -> (r: Vec<String>)
    ensures
        r@.len() == config_dir_candidates(
            match home {
                Some(h) => Some(h@),
                None => None,
            },
        ).len(),
        forall|i: int|
            0 <= i < r@.len() ==> #[trigger] r@[i]@ == config_dir_candidates(
                match home {
                    Some(h) => Some(h@),
                    None => None,
                },
            )[i],
{
    let mut r: Vec<String> = Vec::new();
    match home {
        Some(h) => {
            r.push(join_path(h, ".nenechi"));
            let config = join_path(h, ".config");
            r.push(join_path(config.as_str(), "nenechi"));
        },
        None => {},
    }
    r.push(owned(SYSTEM_CONFIG_DIRECTORY));
    r
}

/// The first directory whose configuration file exists.
pub open spec fn first_with_config(directories: Seq<Seq<char>>, has_config: Seq<bool>) -> Option<
    Seq<char>,
>
    decreases directories.len(),
{
    if directories.len() == 0 || has_config.len() == 0 {
        None
    } else if has_config[0] {
        Some(directories[0])
    } else {
        first_with_config(directories.drop_first(), has_config.drop_first())
    }
}

/// The directory taken is the first, in the search order, whose
/// configuration file exists: it is one of the directories, its file exists,
/// and no earlier directory has one; when none is taken, no directory has
/// one.
pub proof fn first_configured_directory_wins(directories: Seq<Seq<char>>, has_config: Seq<bool>)
    requires
        directories.len() == has_config.len(),
    ensures
        first_with_config(directories, has_config) matches Some(d) ==> exists|i: int|
            0 <= i < directories.len() && has_config[i] && directories[i] == d && forall|j: int|
                0 <= j < i ==> !#[trigger] has_config[j],
        first_with_config(directories, has_config) is None ==> forall|i: int|
            0 <= i < has_config.len() ==> !#[trigger] has_config[i],
    decreases directories.len(),
{
    if directories.len() > 0 && !has_config[0] {
        first_configured_directory_wins(directories.drop_first(), has_config.drop_first());
        if first_with_config(directories, has_config) is Some {
            let i = choose|i: int|
                0 <= i < directories.drop_first().len() && has_config.drop_first()[i]
                    && directories.drop_first()[i] == first_with_config(directories, has_config)->0
                    && forall|j: int| 0 <= j < i ==> !#[trigger] has_config.drop_first()[j];
            assert(has_config[i + 1] && directories[i + 1] == first_with_config(
                directories,
                has_config,
            )->0);
            assert forall|j: int| 0 <= j < i + 1 implies !#[trigger] has_config[j] by {
                if j > 0 {
                    assert(has_config[j] == has_config.drop_first()[j - 1]);
                }
            }
        } else {
            assert forall|i: int| 0 <= i < has_config.len() implies !#[trigger] has_config[i] by {
                if i > 0 {
                    assert(has_config[i] == has_config.drop_first()[i - 1]);
                }
            }
        }
    }
}

/// The path of the configuration file in a directory.
pub fn config_file_path(directory: &str) -> (r: String)
    ensures
        r@ == joined_path(directory@, CONFIG_FILE_NAME@),
{
    join_path(directory, CONFIG_FILE_NAME)
}

/// The first directory whose configuration file exists; `has_config_file`
/// tells, for each directory in turn, whether `config.yaml` is a file there.
pub fn find_config_dir(directories: &Vec<String>, has_config_file: &Vec<bool>) -> (r: Option<String>)
    requires
        directories@.len() == has_config_file@.len(),
    ensures
        match first_with_config(directories@.map_values(|d: String| d@), has_config_file@) {
            Some(d) => r matches Some(s) && s@ == d,
            None => r is None,
        },
{
    let ghost ds = directories@.map_values(|d: String| d@);
    let mut i: usize = 0;
    assert(ds.skip(0) =~= ds);
    assert(has_config_file@.skip(0) =~= has_config_file@);
    while i < directories.len()
        invariant
            i <= directories@.len(),
            directories@.len() == has_config_file@.len(),
            ds == directories@.map_values(|d: String| d@),
            first_with_config(ds, has_config_file@) == first_with_config(
                ds.skip(i as int),
                has_config_file@.skip(i as int),
            ),
        decreases directories@.len() - i,
    {
        assert(ds.skip(i as int).drop_first() =~= ds.skip(i + 1));
        assert(has_config_file@.skip(i as int).drop_first() =~= has_config_file@.skip(i + 1));
        if has_config_file[i] {
            return Some(directories[i].clone());
        }
        i = i + 1;
    }
    None
}

/// The directory of the separate command configurations: `conf.d` inside
/// the configuration directory, when there is one.
pub fn resolve_configs_dir(config_directory: Option<&str>) -> (r: Option<String>)
    ensures
        match config_directory {
            Some(d) => r matches Some(s) && s@ == joined_path(d@, "conf.d"@),
            None => r is None,
        },
{
    match config_directory {
        Some(d) => Some(join_path(d, "conf.d")),
        None => None,
    }
}

} // verus!
