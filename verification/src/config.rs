//! The `~/.exbar/config.json` schema and its mutation API.
//!
//! The JSON text itself is read and written by the application with serde;
//! this module holds the configuration as plain values and every rule that
//! changes it: appending, removing, reordering and renaming folders, the
//! clamped new-tab timeout and the `shell:` alias test.

use vstd::prelude::*;
use crate::log::LogLevel;
use crate::text::{has_prefix, starts_with, trim_spec, trim_str};

verus! {

/// Toolbar orientation.
#[derive(PartialEq, Eq, Structural, Clone, Copy, Debug)]
pub enum Layout {
    Horizontal,
    Vertical,
}

impl Default for Layout {
    fn default() -> (r: Layout)
        ensures
            r == Layout::Horizontal,
    {
        Layout::Horizontal
    }
}

/// One folder shortcut.
#[derive(Debug, PartialEq, Eq)]
pub struct FolderEntry {
    pub name: String,
    pub path: String,
    pub icon: Option<String>,
}

/// The whole configuration. `background_opacity_bits` carries the
/// configured opacity (an `f32`) by its IEEE-754 bit pattern; the library
/// never computes with it.
#[derive(Debug)]
pub struct Config {
    pub folders: Vec<FolderEntry>,
    pub layout: Layout,
    pub background_opacity_bits: u32,
    pub new_tab_timeout_ms_zero_disables: u32,
    /// Show the toolbar over Save As / Open dialogs too.
    pub enable_file_dialogs: bool,
    /// Delay before repositioning after Explorer moves or resizes.
    pub reposition_delay_ms: u32,
    /// The least severe log messages written.
    pub log_level: LogLevel,
}

/// Every field but the folder list has its default value.
pub open spec fn has_default_settings(c: Config) -> bool {
    &&& c.layout == Layout::Horizontal
    &&& c.background_opacity_bits == DEFAULT_OPACITY_BITS
    &&& c.new_tab_timeout_ms_zero_disables == 500
    &&& c.enable_file_dialogs
    &&& c.reposition_delay_ms == DEFAULT_REPOSITION_DELAY_MS
    &&& c.log_level == LogLevel::Info
}

/// Every field but the folder list agrees.
pub open spec fn same_settings(a: Config, b: Config) -> bool {
    &&& a.layout == b.layout
    &&& a.background_opacity_bits == b.background_opacity_bits
    &&& a.new_tab_timeout_ms_zero_disables == b.new_tab_timeout_ms_zero_disables
    &&& a.enable_file_dialogs == b.enable_file_dialogs
    &&& a.reposition_delay_ms == b.reposition_delay_ms
    &&& a.log_level == b.log_level
}

/// Bit pattern of the default background opacity, the `f32` value 0.8.
pub const DEFAULT_OPACITY_BITS: u32 = 0x3F4C_CCCD;

/// Reposition delay when the config does not set one, in milliseconds.
pub const DEFAULT_REPOSITION_DELAY_MS: u32 = 250;

/// The largest accepted new-tab timeout, in milliseconds.
pub const MAX_NEW_TAB_TIMEOUT_MS: u32 = 5000;

/// New-tab timeout used when the config does not set one.
pub fn default_new_tab_timeout() -> (r: u32)
    ensures
        r == 500,
{
    500
}

/// A configured timeout, clamped to at most `MAX_NEW_TAB_TIMEOUT_MS`.
pub fn clamp_new_tab_timeout(v: u32) -> (r: u32)
    ensures
        r == if v <= MAX_NEW_TAB_TIMEOUT_MS { v } else { MAX_NEW_TAB_TIMEOUT_MS },
{
    if v <= MAX_NEW_TAB_TIMEOUT_MS {
        v
    } else {
        MAX_NEW_TAB_TIMEOUT_MS
    }
}

pub open spec fn shell_prefix() -> Seq<char> {
    seq!['s', 'h', 'e', 'l', 'l', ':']
}

/// True if `path` is a `shell:` alias (such as `shell:downloads`).
pub fn is_shell_alias(path: &str) -> (r: bool)
    ensures
        r == has_prefix(path@, shell_prefix()),
{
    proof {
        reveal_strlit("shell:");
    }
    let r = starts_with(path, "shell:");
    assert("shell:"@ =~= shell_prefix());
    r
}

impl FolderEntry {
    /// A copy of this entry.
    pub fn duplicate(&self) -> (r: FolderEntry)
        ensures
            r == *self,
    {
        let icon = match &self.icon {
            Some(s) => Some(s.clone()),
            None => None,
        };
        FolderEntry { name: self.name.clone(), path: self.path.clone(), icon }
    }
}

/// Where `move_folder(from, to)` puts the entry, counted after its removal.
pub open spec fn effective_move_target(from: int, to: int) -> int {
    if to > from { to - 1 } else { to }
}

/// Whether `move_folder(from, to)` changes a list of `n` folders.
pub open spec fn move_applies(n: int, from: int, to: int) -> bool {
    &&& from < n
    &&& effective_move_target(from, to) != from
    &&& effective_move_target(from, to) <= n
}

/// The folder list after `move_folder(from, to)`.
pub open spec fn moved<A>(s: Seq<A>, from: int, to: int) -> Seq<A> {
    if move_applies(s.len() as int, from, to) {
        let eff = effective_move_target(from, to);
        let rest = s.remove(from);
        let at = if eff <= rest.len() { eff } else { rest.len() as int };
        rest.insert(at, s[from])
    } else {
        s
    }
}

impl Config {
    /// The configuration that `{"folders":[]}` gives: no folders and every
    /// other field at its default.
    pub fn empty() -> (r: Config)
        ensures
            r.folders@ == Seq::<FolderEntry>::empty(),
            has_default_settings(r),
    {
        Config {
            folders: Vec::new(),
            layout: Layout::Horizontal,
            background_opacity_bits: DEFAULT_OPACITY_BITS,
            new_tab_timeout_ms_zero_disables: default_new_tab_timeout(),
            enable_file_dialogs: true,
            reposition_delay_ms: DEFAULT_REPOSITION_DELAY_MS,
            log_level: LogLevel::Info,
        }
    }

    /// Appends a folder (with no icon) at the end of the list.
    pub fn add_folder(&mut self, name: String, path: String)
        ensures
            final(self).folders@ == old(self).folders@.push(
                FolderEntry { name: name, path: path, icon: None },
            ),
            same_settings(*final(self), *old(self)),
    {
        self.folders.push(FolderEntry { name, path, icon: None });
    }

    /// Removes the folder at `index`; no change when `index` is out of range.
    pub fn remove_folder(&mut self, index: usize)
        ensures
            index < old(self).folders@.len() ==> final(self).folders@ == old(
                self,
            ).folders@.remove(index as int),
            index >= old(self).folders@.len() ==> final(self).folders@ == old(self).folders@,
            same_settings(*final(self), *old(self)),
    {
        if index < self.folders.len() {
            let _removed = self.folders.remove(index);
        }
    }

    /// Moves the folder at `from` to position `to`, where `to` is an
    /// insertion index in `0..=len` counted before the removal. No change
    /// when `from >= len` or when the entry would land where it is.
    pub fn move_folder(&mut self, from: usize, to: usize)
        ensures
            final(self).folders@ == moved(old(self).folders@, from as int, to as int),
            same_settings(*final(self), *old(self)),
    {
        if from >= self.folders.len() {
            return;
        }
        let effective_to = if to > from { to - 1 } else { to };
        if effective_to == from {
            return;
        }
        if effective_to > self.folders.len() {
            return;
        }
        let ghost s = self.folders@;
        let entry = self.folders.remove(from);
        let n = self.folders.len();
        let at = if effective_to <= n { effective_to } else { n };
        self.folders.insert(at, entry);
        assert(self.folders@ =~= moved(s, from as int, to as int));
    }

    /// Renames the folder at `index` to `new_name` with surrounding white
    /// space removed. No change when `index` is out of range or the trimmed
    /// name is empty.
    pub fn rename_folder(&mut self, index: usize, new_name: String)
        ensures
            ({
                let t = trim_spec(new_name@);
                let o = old(self).folders@;
                let f = final(self).folders@;
                if index < o.len() && t.len() > 0 {
                    &&& f.len() == o.len()
                    &&& f[index as int].name@ == t
                    &&& f[index as int].path == o[index as int].path
                    &&& f[index as int].icon == o[index as int].icon
                    &&& forall|i: int| 0 <= i < o.len() && i != index ==> f[i] == o[i]
                } else {
                    f == o
                }
            }),
            same_settings(*final(self), *old(self)),
    {
        if index >= self.folders.len() {
            return;
        }
        let trimmed = trim_str(new_name.as_str());
        if trimmed.is_empty() {
            return;
        }
        let old_entry = self.folders[index].duplicate();
        let entry = FolderEntry { name: trimmed.to_owned(), path: old_entry.path, icon: old_entry.icon };
        self.folders.set(index, entry);
    }
}


/// Removing the folder that `add_folder` just appended gives the list back.
pub proof fn lemma_add_then_remove_restores(folders: Seq<FolderEntry>, e: FolderEntry)
    ensures
        folders.push(e).remove(folders.len() as int) == folders,
{
    assert(folders.push(e).remove(folders.len() as int) =~= folders);
}

/// Reordering keeps every folder, each as often as before, and the length.
pub proof fn lemma_move_keeps_folders(s: Seq<FolderEntry>, from_index: usize, to_index: usize)
    ensures
        moved(s, from_index as int, to_index as int).to_multiset() == s.to_multiset(),
        moved(s, from_index as int, to_index as int).len() == s.len(),
{
    let from = from_index as int;
    let to = to_index as int;
    if move_applies(s.len() as int, from, to) {
        let eff = effective_move_target(from, to);
        let rest = s.remove(from);
        let at = if eff <= rest.len() { eff } else { rest.len() as int };
        vstd::seq_lib::to_multiset_insert(rest, at, s[from]);
        vstd::seq_lib::to_multiset_remove(s, from);
        assert(s.to_multiset().remove(s[from]).insert(s[from]) =~= s.to_multiset()) by {
            broadcast use vstd::multiset::group_multiset_axioms;
            assert(s.to_multiset().contains(s[from])) by {
                broadcast use vstd::seq_lib::group_to_multiset_ensures;
            }
        }
    }
}

/// Where the moved folder lands: `move_folder(from, to)` followed by
/// `move_folder(back_from, back_to)` puts it back.
pub open spec fn back_from(from: int, to: int) -> int {
    effective_move_target(from, to)
}

pub open spec fn back_to(from: int, to: int) -> int {
    if to > from { from } else { from + 1 }
}

/// A reorder is undone by moving the folder from where it landed back to
/// where it was.
pub proof fn lemma_move_then_back_restores(s: Seq<FolderEntry>, from: int, to: int)
    requires
        0 <= from,
        0 <= to <= s.len(),
        move_applies(s.len() as int, from, to),
    ensures
        moved(moved(s, from, to), back_from(from, to), back_to(from, to)) == s,
{
    let eff = effective_move_target(from, to);
    let rest = s.remove(from);
    let m = rest.insert(eff, s[from]);
    assert(moved(s, from, to) == m);
    assert(m.len() == s.len());
    assert(move_applies(m.len() as int, back_from(from, to), back_to(from, to)));
    assert(m.remove(eff) =~= rest);
    assert(m[eff] == s[from]);
    assert(rest.insert(from, s[from]) =~= s);
}

/// Renaming keeps the number of folders and every path.
pub proof fn lemma_rename_keeps_paths(o: Seq<FolderEntry>, f: Seq<FolderEntry>, index: int, t: Seq<char>)
    requires
        (if 0 <= index < o.len() && t.len() > 0 {
            &&& f.len() == o.len()
            &&& f[index].name@ == t
            &&& f[index].path == o[index].path
            &&& f[index].icon == o[index].icon
            &&& forall|i: int| 0 <= i < o.len() && i != index ==> f[i] == o[i]
        } else {
            f == o
        }),
    ensures
        f.len() == o.len(),
        forall|i: int| 0 <= i < o.len() ==> #[trigger] f[i].path == o[i].path,
{
}

} // verus!
