//! Argument handling of the command-line demo: the value of an option, and where
//! the dictionaries are loaded from.
use vstd::prelude::*;

use crate::paths::opt_view;
use crate::strings::str_eq;

verus! {

/// The texts of the arguments.
pub open spec fn arg_texts(args: Seq<String>) -> Seq<Seq<char>> {
    args.map_values(|a: String| a@)
}

/// Whether `i` is the first position of `name` in `args`.
pub open spec fn is_first_position(args: Seq<Seq<char>>, name: Seq<char>, i: int) -> bool {
    &&& 0 <= i < args.len()
    &&& args[i] == name
    &&& forall|j: int| 0 <= j < i ==> args[j] != name
}

/// The value of the option `name` given as `--name value`: the argument after the
/// first occurrence of `name`, if there is one.
pub open spec fn option_value(args: Seq<Seq<char>>, name: Seq<char>) -> Option<Seq<char>> {
    if exists|i: int| is_first_position(args, name, i) {
        let i = choose|i: int| is_first_position(args, name, i);
        if i + 1 < args.len() {
            Some(args[i + 1])
        } else {
            None
        }
    } else {
        None
    }
}

/// Takes the value of an option written as `--name value`.
pub fn arg_value<'a>(args: &'a [String], name: &str) -> (r: Option<&'a str>)
    ensures
        match r {
            Some(v) => option_value(arg_texts(args@), name@) == Some(v@),
            None => option_value(arg_texts(args@), name@) is None,
        },
{
    let ghost texts = arg_texts(args@);
    let mut i: usize = 0;
    while i < args.len()
        invariant
            i <= args@.len(),
            texts == arg_texts(args@),
            forall|j: int| 0 <= j < i ==> texts[j] != name@,
        decreases args@.len() - i,
    {
        if str_eq(args[i].as_str(), name) {
            proof {
                assert(is_first_position(texts, name@, i as int));
                let k = choose|k: int| is_first_position(texts, name@, k);
                assert(k == i);
            }
            if i + 1 < args.len() {
                return Some(args[i + 1].as_str());
            } else {
                return None;
            }
        }
        i = i + 1;
    }
    None
}

/// The system dictionary to load: the `--dict` argument, else the configured
/// path, else the default path if that file exists.
pub open spec fn dict_choice(
    dict_arg: Option<Seq<char>>,
    configured: Option<Seq<char>>,
    default_path: Seq<char>,
    default_exists: bool,
) -> Option<Seq<char>> {
    if dict_arg is Some {
        dict_arg
    } else if configured is Some {
        configured
    } else if default_exists {
        Some(default_path)
    } else {
        None
    }
}

/// The view of an optional string.
pub open spec fn opt_string_text(s: Option<String>) -> Option<Seq<char>> {
    match s {
        Some(x) => Some(x@),
        None => None,
    }
}

/// Chooses the system dictionary: `--dict` argument > configured path > default
/// path (when the file exists).
pub fn resolve_dict_path(
    dict_arg: Option<&str>,
    configured: Option<&str>,
    default_path: &str,
    default_exists: bool,
) -> (r: Option<String>)
    ensures
        opt_string_text(r) == dict_choice(
            opt_view(dict_arg),
            opt_view(configured),
            default_path@,
            default_exists,
        ),
{
    match dict_arg {
        Some(p) => Some(p.to_owned()),
        None => match configured {
            Some(p) => Some(p.to_owned()),
            None => if default_exists {
                Some(default_path.to_owned())
            } else {
                None
            },
        },
    }
}

/// The user dictionary to use: the `--user-dict` argument, else the default path
/// when automatic learning is on.
pub open spec fn user_dict_choice(
    user_dict_arg: Option<Seq<char>>,
    auto_learn: bool,
    default_path: Seq<char>,
) -> Option<Seq<char>> {
    if user_dict_arg is Some {
        user_dict_arg
    } else if auto_learn {
        Some(default_path)
    } else {
        None
    }
}

/// Chooses the user dictionary: `--user-dict` argument > (with automatic learning)
/// the default path.
pub fn resolve_user_dict_path(user_dict_arg: Option<&str>, auto_learn: bool, default_path: &str) -> (r:
    Option<String>)
    ensures
        opt_string_text(r) == user_dict_choice(opt_view(user_dict_arg), auto_learn, default_path@),
{
    match user_dict_arg {
        Some(p) => Some(p.to_owned()),
        None => if auto_learn {
            Some(default_path.to_owned())
        } else {
            None
        },
    }
}

// === Laws ===
/// An option that is not among the arguments has no value, and neither has an
/// option that is the last argument.
pub proof fn lemma_missing_option_has_no_value(args: Seq<Seq<char>>, name: Seq<char>)
    ensures
        !args.contains(name) ==> option_value(args, name) is None,
        args.len() > 0 && args.last() == name && (forall|j: int|
            0 <= j < args.len() - 1 ==> args[j] != name) ==> option_value(args, name) is None,
{
    if args.len() > 0 && args.last() == name && (forall|j: int|
        0 <= j < args.len() - 1 ==> args[j] != name) {
        assert(is_first_position(args, name, args.len() - 1));
        let k = choose|k: int| is_first_position(args, name, k);
        assert(k == args.len() - 1);
    }
    if !args.contains(name) {
        if exists|i: int| is_first_position(args, name, i) {
            let i = choose|i: int| is_first_position(args, name, i);
            assert(args.contains(name));
        }
    }
}

/// An explicit argument always wins: the `--dict` argument over the configuration
/// and the default, the `--user-dict` argument over automatic learning.
pub proof fn lemma_argument_wins(
    arg: Seq<char>,
    configured: Option<Seq<char>>,
    default_path: Seq<char>,
    default_exists: bool,
    auto_learn: bool,
)
    ensures
        dict_choice(Some(arg), configured, default_path, default_exists) == Some(arg),
        user_dict_choice(Some(arg), auto_learn, default_path) == Some(arg),
        dict_choice(None, None, default_path, false) is None,
        user_dict_choice(None, false, default_path) is None,
{
}

/// The configured dictionary is used whenever no `--dict` argument is given,
/// whether or not the default file exists; whether the default file exists matters
/// only when neither an argument nor a configured path is given, and then the
/// default path is chosen exactly when it exists. What is chosen is always one of
/// the three candidates.
pub proof fn lemma_configured_dictionary_is_used(
    dict_arg: Option<Seq<char>>,
    configured: Seq<char>,
    default_path: Seq<char>,
    default_exists: bool,
)
    ensures
        dict_choice(None, Some(configured), default_path, default_exists) == Some(configured),
        (dict_arg is Some || default_exists) ==> dict_choice(
            dict_arg,
            Some(configured),
            default_path,
            default_exists,
        ) is Some,
        dict_choice(dict_arg, Some(configured), default_path, true) == dict_choice(
            dict_arg,
            Some(configured),
            default_path,
            false,
        ),
        dict_choice(None, None, default_path, default_exists) is Some <==> default_exists,
        dict_choice(None, None, default_path, true) == Some(default_path),
        forall|c: Option<Seq<char>>|
            #![trigger dict_choice(dict_arg, c, default_path, default_exists)]
            dict_choice(dict_arg, c, default_path, default_exists) matches Some(x) ==> (
            dict_arg == Some(x) || c == Some(x) || x == default_path),
{
}

/// Without a `--user-dict` argument the default user dictionary is used exactly
/// when automatic learning is on; with one, automatic learning does not matter.
pub proof fn lemma_user_dictionary_follows_auto_learn(
    user_dict_arg: Option<Seq<char>>,
    auto_learn: bool,
    default_path: Seq<char>,
)
    ensures
        user_dict_choice(None, auto_learn, default_path) is Some <==> auto_learn,
        user_dict_choice(None, true, default_path) == Some(default_path),
        user_dict_arg is Some ==> user_dict_choice(user_dict_arg, true, default_path)
            == user_dict_choice(user_dict_arg, false, default_path),
{
}

/// The value of an option is the argument right after its first occurrence, even
/// when the option is given again later or that argument is itself an option name.
pub proof fn lemma_first_occurrence_gives_value(args: Seq<Seq<char>>, name: Seq<char>, i: int)
    requires
        0 <= i < args.len(),
        args[i] == name,
        forall|j: int| 0 <= j < i ==> args[j] != name,
    ensures
        i + 1 < args.len() ==> option_value(args, name) == Some(args[i + 1]),
        i + 1 == args.len() ==> option_value(args, name) is None,
        option_value(args.push(name).push(name), name) == if i + 1 < args.len() {
            Some(args[i + 1])
        } else {
            Some(name)
        },
{
    assert(is_first_position(args, name, i));
    let k = choose|k: int| is_first_position(args, name, k);
    assert(k == i) by {
        if k < i {
            assert(args[k] != name);
        } else if k > i {
            assert(args[i] != name);
        }
    }
    let longer = args.push(name).push(name);
    assert(is_first_position(longer, name, i)) by {
        assert(longer[i] == args[i]);
        assert forall|j: int| 0 <= j < i implies longer[j] != name by {
            assert(longer[j] == args[j]);
        }
    }
    let m = choose|k: int| is_first_position(longer, name, k);
    assert(m == i) by {
        if m < i {
            assert(longer[m] == args[m]);
        } else if m > i {
            assert(longer[i] != name);
        }
    }
    if i + 1 < args.len() {
        assert(longer[i + 1] == args[i + 1]);
    } else {
        assert(longer[i + 1] == name);
    }
}

} // verus!
