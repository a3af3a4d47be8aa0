//! Default locations of the configuration, the dictionary and the user dictionary.
//!
//! - **Windows:** both configuration and data live under `%APPDATA%\enpitsu\`.
//! - **Linux:** the XDG Base Directory specification is followed.
//!   - configuration: `$XDG_CONFIG_HOME/enpitsu` (by default `~/.config/enpitsu`)
//!   - data (dictionary, user dictionary): `$XDG_DATA_HOME/enpitsu` (by default `~/.local/share/enpitsu`)
//!
//! The functions here take the values of the environment variables as arguments
//! and build the paths from them; reading the environment is left to the caller.
//! A path is the text of the path. Components are joined the way `PathBuf::push`
//! joins a relative component on the platform the path is for: with `/` on Unix,
//! with `\` on Windows.
use vstd::prelude::*;

use crate::strings::push_char;

verus! {

/// The name of the application's own subdirectory.
pub const APP_DIR: &'static str = "enpitsu";

/// The view of an optional string slice.
pub open spec fn opt_view(s: Option<&str>) -> Option<Seq<char>> {
    match s {
        Some(x) => Some(x@),
        None => None,
    }
}

/// The platform whose path rules apply.
#[derive(Debug, Clone, Copy, PartialEq, Eq, Structural)]
pub enum PathStyle {
    /// Unix: `/` separates components.
    Unix,
    /// Windows: `\` separates components, and `/` is accepted as well.
    Windows,
}

/// Whether `c` separates path components.
pub open spec fn is_separator(style: PathStyle, c: char) -> bool {
    c == '/' || (style == PathStyle::Windows && c == '\\')
}

/// The separator that joining puts between components.
pub open spec fn separator(style: PathStyle) -> char {
    match style {
        PathStyle::Unix => '/',
        PathStyle::Windows => '\\',
    }
}

/// Whether `base` is a bare Windows drive such as `C:`, to which a relative
/// component is joined without a separator (`C:enpitsu`).
pub open spec fn is_bare_drive(style: PathStyle, base: Seq<char>) -> bool {
    &&& style == PathStyle::Windows
    &&& base.len() == 2
    &&& base[1] == ':'
    &&& (('A' <= base[0] <= 'Z') || ('a' <= base[0] <= 'z'))
}

/// Joins the relative path `component` to `base`: a separator is put between
/// them unless `base` is empty, already ends with a separator, or is a bare drive.
pub open spec fn path_join(style: PathStyle, base: Seq<char>, component: Seq<char>) -> Seq<char> {
    if base.len() == 0 || is_separator(style, base.last()) || is_bare_drive(style, base) {
        base + component
    } else {
        base + seq![separator(style)] + component
    }
}

/// Whether `s` ends with `suffix`.
pub open spec fn ends_with(s: Seq<char>, suffix: Seq<char>) -> bool {
    suffix.len() <= s.len() && s.subrange(s.len() - suffix.len(), s.len() as int) == suffix
}

/// A variable's value, if it is set and not empty.
pub open spec fn non_empty(value: Option<Seq<char>>) -> Option<Seq<char>> {
    match value {
        Some(x) => if x.len() > 0 {
            Some(x)
        } else {
            None
        },
        None => None,
    }
}

/// `%APPDATA%\enpitsu`, with the current directory standing for an unset or empty `APPDATA`.
pub open spec fn appdata_dir_path(appdata: Option<Seq<char>>) -> Seq<char> {
    match non_empty(appdata) {
        Some(base) => path_join(PathStyle::Windows, base, APP_DIR@),
        None => path_join(PathStyle::Windows, seq!['.'], APP_DIR@),
    }
}

/// `$XDG_CONFIG_HOME/enpitsu`, or `<home>/.config/enpitsu` when the variable is unset or empty.
pub open spec fn config_dir_path(xdg_config_home: Option<Seq<char>>, home: Seq<char>) -> Seq<
    char,
> {
    match non_empty(xdg_config_home) {
        Some(base) => path_join(PathStyle::Unix, base, APP_DIR@),
        None => path_join(PathStyle::Unix, path_join(PathStyle::Unix, home, ".config"@), APP_DIR@),
    }
}

/// `$XDG_DATA_HOME/enpitsu`, or `<home>/.local/share/enpitsu` when the variable is unset or empty.
pub open spec fn data_dir_path(xdg_data_home: Option<Seq<char>>, home: Seq<char>) -> Seq<char> {
    match non_empty(xdg_data_home) {
        Some(base) => path_join(PathStyle::Unix, base, APP_DIR@),
        None => path_join(
            PathStyle::Unix,
            path_join(PathStyle::Unix, path_join(PathStyle::Unix, home, ".local"@), "share"@),
            APP_DIR@,
        ),
    }
}

/// Joins the relative path `component` to `base`, by the rules of `style`.
pub fn join_path(style: PathStyle, base: &str, component: &str) -> (r: String)
    ensures
        r@ == path_join(style, base@, component@),
{
    let mut r = base.to_owned();
    let n = base.unicode_len();
    if n > 0 {
        let last = base.get_char(n - 1);
        let windows = matches!(style, PathStyle::Windows);
        let ends_with_separator = last == '/' || (windows && last == '\\');
        let bare_drive = windows && n == 2 && base.get_char(1) == ':' && {
            let d = base.get_char(0);
            ('A' <= d && d <= 'Z') || ('a' <= d && d <= 'z')
        };
        if !ends_with_separator && !bare_drive {
            let sep = if windows {
                '\\'
            } else {
                '/'
            };
            push_char(&mut r, sep);
        }
    }
    r.append(component);
    r
}

/// Windows: builds `%APPDATA%\enpitsu`. Without `APPDATA` (unset or empty) the
/// current directory is the base.
pub fn appdata_dir_from(appdata: Option<&str>) -> (r: String)
    ensures
        r@ == appdata_dir_path(opt_view(appdata)),
{
    proof {
        reveal_strlit(".");
        assert("."@ =~= seq!['.']);
    }
    match appdata {
        Some(base) if !base.is_empty() => join_path(PathStyle::Windows, base, APP_DIR),
        _ => join_path(PathStyle::Windows, ".", APP_DIR),
    }
}

/// Linux: builds the configuration directory: `$XDG_CONFIG_HOME/enpitsu` when the
/// variable is set and not empty, `~/.config/enpitsu` otherwise.
pub fn config_dir_from(xdg_config_home: Option<&str>, home: &str) -> (r: String)
    ensures
        r@ == config_dir_path(opt_view(xdg_config_home), home@),
{
    match xdg_config_home {
        Some(x) if !x.is_empty() => join_path(PathStyle::Unix, x, APP_DIR),
        _ => {
            let config = join_path(PathStyle::Unix, home, ".config");
            join_path(PathStyle::Unix, config.as_str(), APP_DIR)
        },
    }
}

/// Linux: builds the data directory: `$XDG_DATA_HOME/enpitsu` when the variable is
/// set and not empty, `~/.local/share/enpitsu` otherwise.
pub fn data_dir_from(xdg_data_home: Option<&str>, home: &str) -> (r: String)
    ensures
        r@ == data_dir_path(opt_view(xdg_data_home), home@),
{
    match xdg_data_home {
        Some(x) if !x.is_empty() => join_path(PathStyle::Unix, x, APP_DIR),
        _ => {
            let local = join_path(PathStyle::Unix, home, ".local");
            let share = join_path(PathStyle::Unix, local.as_str(), "share");
            join_path(PathStyle::Unix, share.as_str(), APP_DIR)
        },
    }
}

// === File paths ===
/// The path of the configuration file `config.toml` in the configuration directory.
pub fn config_file(style: PathStyle, config_dir: &str) -> (r: String)
    ensures
        r@ == path_join(style, config_dir@, "config.toml"@),
{
    join_path(style, config_dir, "config.toml")
}

/// The path of the default system dictionary `dict/SKK-JISYO.L` in the data directory.
pub fn default_dict_file(style: PathStyle, data_dir: &str) -> (r: String)
    ensures
        r@ == path_join(style, path_join(style, data_dir@, "dict"@), "SKK-JISYO.L"@),
{
    let dict = join_path(style, data_dir, "dict");
    join_path(style, dict.as_str(), "SKK-JISYO.L")
}

/// The path of the user dictionary `user_dict.txt` in the data directory.
pub fn user_dict_file(style: PathStyle, data_dir: &str) -> (r: String)
    ensures
        r@ == path_join(style, data_dir@, "user_dict.txt"@),
{
    join_path(style, data_dir, "user_dict.txt")
}

// === Laws ===
/// A joined path ends with the component joined last, and starts with the base.
pub proof fn lemma_join_ends_with_component(style: PathStyle, base: Seq<char>, component: Seq<char>)
    ensures
        ends_with(path_join(style, base, component), component),
        path_join(style, base, component).subrange(0, base.len() as int) == base,
{
    let j = path_join(style, base, component);
    assert(j.subrange(j.len() - component.len(), j.len() as int) =~= component);
    assert(j.subrange(0, base.len() as int) =~= base);
}

/// An environment variable set to the empty string counts as unset.
pub proof fn lemma_empty_variable_is_unset(home: Seq<char>)
    ensures
        config_dir_path(Some(seq![]), home) == config_dir_path(None, home),
        data_dir_path(Some(seq![]), home) == data_dir_path(None, home),
        appdata_dir_path(Some(seq![])) == appdata_dir_path(None),
{
}

/// The configuration and data directories are the application's own directory, and
/// each file lies in its directory under its fixed name.
pub proof fn lemma_paths_end_with_names(
    style: PathStyle,
    xdg_config_home: Option<Seq<char>>,
    xdg_data_home: Option<Seq<char>>,
    appdata: Option<Seq<char>>,
    home: Seq<char>,
    dir: Seq<char>,
)
    ensures
        ends_with(config_dir_path(xdg_config_home, home), APP_DIR@),
        ends_with(data_dir_path(xdg_data_home, home), APP_DIR@),
        ends_with(appdata_dir_path(appdata), APP_DIR@),
        ends_with(path_join(style, dir, "config.toml"@), "config.toml"@),
        ends_with(path_join(style, dir, "user_dict.txt"@), "user_dict.txt"@),
        ends_with(
            path_join(style, path_join(style, dir, "dict"@), "SKK-JISYO.L"@),
            "SKK-JISYO.L"@,
        ),
{
    let u = PathStyle::Unix;
    let w = PathStyle::Windows;
    match non_empty(xdg_config_home) {
        Some(b) => lemma_join_ends_with_component(u, b, APP_DIR@),
        None => lemma_join_ends_with_component(u, path_join(u, home, ".config"@), APP_DIR@),
    }
    match non_empty(xdg_data_home) {
        Some(b) => lemma_join_ends_with_component(u, b, APP_DIR@),
        None => lemma_join_ends_with_component(
            u,
            path_join(u, path_join(u, home, ".local"@), "share"@),
            APP_DIR@,
        ),
    }
    match non_empty(appdata) {
        Some(b) => lemma_join_ends_with_component(w, b, APP_DIR@),
        None => lemma_join_ends_with_component(w, seq!['.'], APP_DIR@),
    }
    lemma_join_ends_with_component(style, dir, "config.toml"@);
    lemma_join_ends_with_component(style, dir, "user_dict.txt"@);
    lemma_join_ends_with_component(style, path_join(style, dir, "dict"@), "SKK-JISYO.L"@);
}

/// Joining puts exactly one separator between a base and a component: `/` on Unix,
/// `\` on Windows. None is added to an empty base, to a base that already ends with
/// a separator (`/` on Unix; `/` or `\` on Windows), or to a bare Windows drive such
/// as `C:`, which Unix treats as an ordinary name.
pub proof fn lemma_join_puts_one_separator(style: PathStyle, base: Seq<char>, component: Seq<char>)
    ensures
        base.len() == 0 ==> path_join(style, base, component) == component,
        base.len() > 0 && base.last() != '/' ==> path_join(PathStyle::Unix, base, component)
            == base.push('/') + component,
        base.len() > 0 && base.last() == '/' ==> path_join(style, base, component) == base
            + component,
        base.len() > 0 && base.last() != '/' && base.last() != '\\' && !(base.len() == 2
            && base[1] == ':') ==> path_join(PathStyle::Windows, base, component) == base.push(
            '\\',
        ) + component,
        base.len() > 0 && base.last() == '\\' ==> path_join(PathStyle::Windows, base, component)
            == base + component,
        path_join(PathStyle::Windows, seq!['C', ':'], component) == seq!['C', ':'] + component,
        path_join(PathStyle::Unix, seq!['C', ':'], component) == seq!['C', ':', '/'] + component,
{
    assert(base.len() == 0 ==> base + component =~= component);
    assert(base.push('/') + component =~= base + seq!['/'] + component);
    assert(base.push('\\') + component =~= base + seq!['\\'] + component);
    assert(seq!['C', ':', '/'] + component =~= seq!['C', ':'] + seq!['/'] + component);
}

/// The default directories, written out: `<home>/.config/enpitsu` and
/// `<home>/.local/share/enpitsu` when the XDG variables are unset,
/// `$XDG_CONFIG_HOME/enpitsu` and `$XDG_DATA_HOME/enpitsu` when they are set, and
/// `%APPDATA%\enpitsu` (`.\enpitsu` without `APPDATA`) on Windows.
pub proof fn lemma_default_directories(
    home: Seq<char>,
    xdg: Seq<char>,
    appdata: Seq<char>,
)
    ensures
        home.len() > 0 && home.last() != '/' ==> config_dir_path(None, home) == home
            + "/.config/enpitsu"@,
        home.len() > 0 && home.last() != '/' ==> data_dir_path(None, home) == home
            + "/.local/share/enpitsu"@,
        xdg.len() > 0 && xdg.last() != '/' ==> config_dir_path(Some(xdg), home) == xdg
            + "/enpitsu"@,
        xdg.len() > 0 && xdg.last() != '/' ==> data_dir_path(Some(xdg), home) == xdg
            + "/enpitsu"@,
        appdata_dir_path(None) == ".\\enpitsu"@,
        appdata.len() > 0 && appdata.last() != '/' && appdata.last() != '\\' && !(appdata.len()
            == 2 && appdata[1] == ':') ==> appdata_dir_path(Some(appdata)) == appdata
            + "\\enpitsu"@,
{
    reveal_strlit("enpitsu");
    reveal_strlit(".config");
    reveal_strlit(".local");
    reveal_strlit("share");
    reveal_strlit("/.config/enpitsu");
    reveal_strlit("/.local/share/enpitsu");
    reveal_strlit("/enpitsu");
    reveal_strlit(".\\enpitsu");
    reveal_strlit("\\enpitsu");
    assert(APP_DIR@ == "enpitsu"@);
    if home.len() > 0 && home.last() != '/' {
        let c = path_join(PathStyle::Unix, home, ".config"@);
        assert(c =~= home + "/.config"@) by {
            reveal_strlit("/.config");
        }
        assert(path_join(PathStyle::Unix, c, APP_DIR@) =~= home + "/.config/enpitsu"@);
        let l = path_join(PathStyle::Unix, home, ".local"@);
        let sh = path_join(PathStyle::Unix, l, "share"@);
        assert(sh.last() == 'e');
        assert(path_join(PathStyle::Unix, sh, APP_DIR@) =~= home + "/.local/share/enpitsu"@);
    }
    if xdg.len() > 0 && xdg.last() != '/' {
        assert(path_join(PathStyle::Unix, xdg, APP_DIR@) =~= xdg + "/enpitsu"@);
    }
    assert(path_join(PathStyle::Windows, seq!['.'], APP_DIR@) =~= ".\\enpitsu"@);
    if appdata.len() > 0 && appdata.last() != '/' && appdata.last() != '\\' && !(appdata.len() == 2
        && appdata[1] == ':') {
        assert(path_join(PathStyle::Windows, appdata, APP_DIR@) =~= appdata + "\\enpitsu"@);
    }
}

} // verus!
