//! Where Exbar keeps its files: the config in `~/.exbar.json`, the saved
//! toolbar position in `~/.exbar/position.json`. The `~/.exbar/` directory
//! also names a `config.json`, and older versions kept the position in
//! `~/.exbar-pos.json`; a legacy file moves to its new place only when the
//! new one does not exist. The home directory is
//! `%USERPROFILE%`, else `$HOME`, else `C:\Users\Default`; the application
//! reads the environment and passes the variables in.

use vstd::prelude::*;
use crate::text::push_char;

verus! {

/// `std::path::MAIN_SEPARATOR`: `\` on Windows, `/` elsewhere.
#[verifier::external_body]
fn main_separator() -> (r: char)
    ensures
        r == '\\' || r == '/',
{
    std::path::MAIN_SEPARATOR
}

/// Whether `c` separates path components where `sep` is the platform's
/// separator (`/` always does).
pub open spec fn is_separator(c: char, sep: char) -> bool {
    c == '/' || c == sep
}

/// Whether `base` is a bare drive prefix such as `C:`: an ASCII letter
/// and a colon, nothing else.
pub open spec fn is_bare_drive(base: Seq<char>) -> bool {
    &&& base.len() == 2
    &&& ('a' <= base[0] <= 'z' || 'A' <= base[0] <= 'Z')
    &&& base[1] == ':'
}

/// `base` joined with the relative component `comp`, as `PathBuf::push`
/// does: no separator is added after an empty base, after one that
/// already ends in a separator, or, where `\` is the separator (Windows),
/// after a bare drive prefix such as `C:` (giving `C:comp`).
pub open spec fn joined(base: Seq<char>, comp: Seq<char>, sep: char) -> Seq<char> {
    if base.len() == 0 {
        comp
    } else if is_separator(base.last(), sep) {
        base + comp
    } else if sep == '\\' && is_bare_drive(base) {
        base + comp
    } else {
        base + seq![sep] + comp
    }
}

fn append_str(s: &mut String, t: &str)
    ensures
        final(s)@ == old(s)@ + t@,
{
    s.append(t);
}

/// Joins `comp` onto `base` with the separator `sep`.
fn join_with(base: &str, comp: &str, sep: char) -> (r: String)
    ensures
        r@ == joined(base@, comp@, sep),
{
    let n = base.unicode_len();
    let mut s = String::from_str(base);
    if n == 0 {
        return String::from_str(comp);
    }
    let last = base.get_char(n - 1);
    let bare_drive = n == 2 && {
        let d = base.get_char(0);
        (('a' <= d && d <= 'z') || ('A' <= d && d <= 'Z')) && last == ':'
    };
    if !(last == '/' || last == sep) && !(sep == '\\' && bare_drive) {
        push_char(&mut s, sep);
    }
    append_str(&mut s, comp);
    assert(base@.last() == base@[n - 1]);
    s
}

/// Joins `comp` onto `base` with the platform's separator; the result is
/// `joined(base, comp, sep)` where `sep` is `\` or `/`.
pub fn join_path(base: &str, comp: &str) -> (r: String)
    ensures
        r@ == joined(base@, comp@, '\\') || r@ == joined(base@, comp@, '/'),
{
    let sep = main_separator();
    join_with(base, comp, sep)
}

/// The home directory used when neither variable is set.
pub open spec fn default_home() -> Seq<char> {
    seq!['C', ':', '\\', 'U', 's', 'e', 'r', 's', '\\', 'D', 'e', 'f', 'a', 'u', 'l', 't']
}

/// `%USERPROFILE%`, else `$HOME`, else `C:\Users\Default`.
pub open spec fn home_spec(userprofile: Option<Seq<char>>, home: Option<Seq<char>>) -> Seq<char> {
    match userprofile {
        Some(u) => u,
        None => match home {
            Some(h) => h,
            None => default_home(),
        },
    }
}

pub open spec fn opt_view(o: Option<&str>) -> Option<Seq<char>> {
    match o {
        Some(s) => Some(s@),
        None => None,
    }
}

pub fn home_dir(userprofile: Option<&str>, home: Option<&str>) -> (r: String)
    ensures
        r@ == home_spec(opt_view(userprofile), opt_view(home)),
{
    match userprofile {
        Some(u) => String::from_str(u),
        None => match home {
            Some(h) => String::from_str(h),
            None => {
                proof {
                    reveal_strlit("C:\\Users\\Default");
                }
                let d = String::from_str("C:\\Users\\Default");
                assert(d@ =~= default_home());
                d
            },
        },
    }
}

/// Whether `p` is `dir` joined with `name` by one of the two separators.
pub open spec fn is_join_of(p: Seq<char>, dir: Seq<char>, name: Seq<char>) -> bool {
    p == joined(dir, name, '\\') || p == joined(dir, name, '/')
}

/// `~/.exbar/` — the directory of all persisted state.
pub fn exbar_dir(userprofile: Option<&str>, home: Option<&str>) -> (r: String)
    ensures
        is_join_of(r@, home_spec(opt_view(userprofile), opt_view(home)), ".exbar"@),
{
    let h = home_dir(userprofile, home);
    join_path(h.as_str(), ".exbar")
}

/// `name` in the `.exbar` directory under `home`, both joins made with the
/// one separator `sep`.
pub open spec fn in_exbar_dir(home: Seq<char>, name: Seq<char>, sep: char) -> Seq<char> {
    joined(joined(home, ".exbar"@, sep), name, sep)
}

/// `home` joined with `.exbar` and then `name`, both with the platform's
/// separator.
fn exbar_file(userprofile: Option<&str>, home: Option<&str>, name: &str) -> (r: String)
    ensures
        r@ == in_exbar_dir(home_spec(opt_view(userprofile), opt_view(home)), name@, '\\') || r@
            == in_exbar_dir(home_spec(opt_view(userprofile), opt_view(home)), name@, '/'),
{
    let sep = main_separator();
    let h = home_dir(userprofile, home);
    let d = join_with(h.as_str(), ".exbar", sep);
    join_with(d.as_str(), name, sep)
}

/// `~/.exbar/config.json`: the folder list and runtime options.
pub fn config_path(userprofile: Option<&str>, home: Option<&str>) -> (r: String)
    ensures
        r@ == in_exbar_dir(home_spec(opt_view(userprofile), opt_view(home)), "config.json"@, '\\')
            || r@ == in_exbar_dir(
            home_spec(opt_view(userprofile), opt_view(home)),
            "config.json"@,
            '/',
        ),
{
    exbar_file(userprofile, home, "config.json")
}

/// `~/.exbar/position.json`: the toolbar offset per target kind.
pub fn position_path(userprofile: Option<&str>, home: Option<&str>) -> (r: String)
    ensures
        r@ == in_exbar_dir(home_spec(opt_view(userprofile), opt_view(home)), "position.json"@, '\\')
            || r@ == in_exbar_dir(
            home_spec(opt_view(userprofile), opt_view(home)),
            "position.json"@,
            '/',
        ),
{
    exbar_file(userprofile, home, "position.json")
}

/// `~/.exbar.json`: the config file that the toolbar loads and saves, the
/// installer creates and the status command reports on.
pub fn default_config_path(userprofile: Option<&str>, home: Option<&str>) -> (r: String)
    ensures
        is_join_of(r@, home_spec(opt_view(userprofile), opt_view(home)), ".exbar.json"@),
{
    let h = home_dir(userprofile, home);
    join_path(h.as_str(), ".exbar.json")
}

/// `~/.exbar-pos.json`: where older versions kept the toolbar position.
pub fn legacy_position_path(userprofile: Option<&str>, home: Option<&str>) -> (r: String)
    ensures
        is_join_of(r@, home_spec(opt_view(userprofile), opt_view(home)), ".exbar-pos.json"@),
{
    let h = home_dir(userprofile, home);
    join_path(h.as_str(), ".exbar-pos.json")
}

/// A legacy file moves to its new place only when it exists and the new
/// file does not.
pub fn should_migrate(legacy_exists: bool, current_exists: bool) -> (r: bool)
    ensures
        r == (legacy_exists && !current_exists),
{
    legacy_exists && !current_exists
}

/// `%LOCALAPPDATA%`, else `C:\Users\<USERNAME>\AppData\Local` (an unset
/// `USERNAME` reads as empty).
pub open spec fn local_appdata_spec(localappdata: Option<Seq<char>>, username: Option<Seq<char>>) -> Seq<char> {
    match localappdata {
        Some(l) => l,
        None => "C:\\Users\\"@ + match username {
            Some(u) => u,
            None => Seq::empty(),
        } + "\\AppData\\Local"@,
    }
}

pub fn local_appdata(localappdata: Option<&str>, username: Option<&str>) -> (r: String)
    ensures
        r@ == local_appdata_spec(opt_view(localappdata), opt_view(username)),
{
    match localappdata {
        Some(l) => String::from_str(l),
        None => {
            let mut s = String::from_str("C:\\Users\\");
            match username {
                Some(u) => append_str(&mut s, u),
                None => {},
            }
            append_str(&mut s, "\\AppData\\Local");
            s
        },
    }
}

/// `%LOCALAPPDATA%\Exbar`: where the command-line installer puts its files.
pub fn install_dir(localappdata: Option<&str>, username: Option<&str>) -> (r: String)
    ensures
        is_join_of(r@, local_appdata_spec(opt_view(localappdata), opt_view(username)), "Exbar"@),
{
    let l = local_appdata(localappdata, username);
    join_path(l.as_str(), "Exbar")
}

/// The value of the `Run` registry entry that starts the hook process at
/// logon: the quoted executable path followed by ` hook`.
pub fn run_key_value(exe_path: &str) -> (r: String)
    ensures
        r@ == seq!['"'] + exe_path@ + "\" hook"@,
{
    proof {
        reveal_strlit("\"");
    }
    let mut s = String::from_str("\"");
    append_str(&mut s, exe_path);
    append_str(&mut s, "\" hook");
    s
}

/// The root of the system drive, where the folder picker starts:
/// `%SystemDrive%` followed by a backslash, else `C:\`.
pub fn system_drive_root(system_drive: Option<&str>) -> (r: String)
    ensures
        match system_drive {
            Some(d) => r@ == d@ + seq!['\\'],
            None => r@ == seq!['C', ':', '\\'],
        },
{
    match system_drive {
        Some(d) => {
            let mut s = String::from_str(d);
            push_char(&mut s, '\\');
            s
        },
        None => {
            proof {
                reveal_strlit("C:\\");
            }
            let s = String::from_str("C:\\");
            assert(s@ =~= seq!['C', ':', '\\']);
            s
        },
    }
}

} // verus!
