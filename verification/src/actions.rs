//! The folder-button actions on the saved configuration: append a folder,
//! remove one, reorder. Each loads the config, changes it and saves it; the
//! application does the loading and saving, these functions the change.
//! A `None` result means the action stops without saving.

use vstd::prelude::*;
use crate::config::{Config, FolderEntry, has_default_settings, moved, same_settings};

verus! {

/// Whether a picked or dropped path can be appended: its final component
/// is non-empty text, and the whole path is text.
pub open spec fn appendable(file_name: Option<String>, path: Option<String>) -> bool {
    &&& file_name matches Some(n) && n@.len() > 0
    &&& path is Some
}

/// The folder entry for a picked or dropped path, from its final component
/// (`None` when it has none or it is not text) and the whole path (`None`
/// when it is not text): labelled by the final component, with no icon.
/// A path that is not appendable gives nothing, and nothing is loaded or
/// saved for it.
pub fn folder_to_append(file_name: Option<String>, path: Option<String>) -> (r: Option<FolderEntry>)
    ensures
        appendable(file_name, path) ==> r == Some(
            FolderEntry { name: file_name.unwrap(), path: path.unwrap(), icon: None },
        ),
        !appendable(file_name, path) ==> r is None,
{
    match (file_name, path) {
        (Some(name), Some(path)) => {
            if name.as_str().is_empty() {
                None
            } else {
                Some(FolderEntry { name, path, icon: None })
            }
        },
        _ => None,
    }
}

/// Appending a picked or dropped folder: the loaded config (or, when none
/// could be loaded, an empty one) with `name` and `path` appended; the
/// entry comes from `folder_to_append`.
pub fn append_folder_to_config(loaded: Option<Config>, name: String, path: String) -> (r: Config)
    ensures
        ({
            let base = match loaded {
                Some(c) => c.folders@,
                None => Seq::empty(),
            };
            r.folders@ == base.push(FolderEntry { name: name, path: path, icon: None })
        }),
        match loaded {
            Some(c) => same_settings(r, c),
            None => has_default_settings(r),
        },
{
    let mut cfg = match loaded {
        Some(c) => c,
        None => Config::empty(),
    };
    cfg.add_folder(name, path);
    cfg
}

/// Removing folder `folder_index`: nothing is saved when no config could
/// be loaded or the index is out of range.
pub fn remove_folder_from_config(loaded: Option<Config>, folder_index: usize) -> (r: Option<Config>)
    ensures
        match loaded {
            None => r is None,
            Some(c) => if folder_index < c.folders@.len() {
                r matches Some(n) && n.folders@ == c.folders@.remove(folder_index as int)
                    && same_settings(n, c)
            } else {
                r is None
            },
        },
{
    match loaded {
        None => None,
        Some(mut cfg) => {
            if folder_index >= cfg.folders.len() {
                return None;
            }
            cfg.remove_folder(folder_index);
            Some(cfg)
        },
    }
}

/// The folder index of a button, which counts the `+` button first; the
/// `+` button itself has none.
pub fn folder_index_of_button(button_index: usize) -> (r: Option<usize>)
    ensures
        button_index == 0 ==> r is None,
        button_index > 0 ==> r == Some((button_index - 1) as usize),
{
    if button_index == 0 {
        None
    } else {
        Some(button_index - 1)
    }
}

/// Committing a reorder drag: `move_folder(from, to)` on the loaded config;
/// nothing is saved when no config could be loaded.
pub fn commit_reorder_in_config(loaded: Option<Config>, from: usize, to: usize) -> (r: Option<Config>)
    ensures
        match loaded {
            None => r is None,
            Some(c) => r matches Some(n) && n.folders@ == moved(
                c.folders@,
                from as int,
                to as int,
            ) && same_settings(n, c),
        },
{
    match loaded {
        None => None,
        Some(mut cfg) => {
            cfg.move_folder(from, to);
            Some(cfg)
        },
    }
}

/// After a save: the toolbar keeps the new config only when the save
/// succeeded.
pub fn config_after_save(current: Option<Config>, saved: Config, save_ok: bool) -> (r: Option<Config>)
    ensures
        save_ok ==> r == Some(saved),
        !save_ok ==> r == current,
{
    if save_ok {
        Some(saved)
    } else {
        current
    }
}

} // verus!
