//! The platform tag and path joining.
//!
//! Install sources, executable names, archive layouts and the file-manager
//! command all depend on the operating system.  Rather than branching on
//! compile-time configuration at every call site, each decision is a pure
//! function of a [`Platform`] value that the embedding application selects
//! once.

use vstd::prelude::*;

verus! {

/// The operating-system family an invocation runs on.
#[derive(Debug, Clone, Copy, PartialEq, Eq, Structural)]
pub enum Platform {
    Windows,
    MacOs,
    Linux,
    /// Any other system: no install source and no file manager are known.
    Other,
}

/// The path separator the platform's path type inserts when joining.
pub open spec fn spec_path_sep(p: Platform) -> char {
    match p {
        Platform::Windows => '\\',
        _ => '/',
    }
}

/// `dir` extended by the relative component `name`, as the platform's path
/// type joins them: a separator is inserted unless `dir` is empty or
/// already ends with one.
pub open spec fn spec_join_path(dir: Seq<char>, name: Seq<char>, p: Platform) -> Seq<char> {
    if dir.len() == 0 {
        name
    } else if dir[dir.len() - 1] == spec_path_sep(p) {
        dir + name
    } else {
        dir + seq![spec_path_sep(p)] + name
    }
}

/// Joins a directory and a relative component.
pub fn join_path(dir: &String, name: &str, p: Platform) -> (r: String)
    ensures
        r@ == spec_join_path(dir@, name@, p),
{
    let sep: char = match p {
        Platform::Windows => '\\',
        Platform::MacOs => '/',
        Platform::Linux => '/',
        Platform::Other => '/',
    };
    let mut chars = crate::text::str_chars(dir.as_str());
    if chars.len() > 0 && chars[chars.len() - 1] != sep {
        chars.push(sep);
    }
    let name_chars = crate::text::str_chars(name);
    crate::text::push_all(&mut chars, &name_chars);
    proof {
        assert(chars@ =~= spec_join_path(dir@, name@, p));
    }
    crate::text::chars_string(&chars)
}

} // verus!
