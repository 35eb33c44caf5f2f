//! The dependency-argument grammar: `name [= text]`.
//!
//! The name is the longest leading run of characters that are neither `=` nor
//! a space; it may be followed by spaces and an optional `=`, after which any
//! further spaces are skipped and the rest of the argument — which must not be
//! empty — is the version text.  Without a `=` part the version text defaults
//! to the quoted wildcard `"*"`.

use vstd::prelude::*;
use vstd::string::{StrSliceExecFns, StringExecFns};
use crate::errors::{Error, ErrV};

verus! {

/// Whether `c` may appear in a dependency name.
pub open spec fn is_name_char(c: char) -> bool {
    c != '=' && c != ' '
}

/// The length of the run of name characters starting at `i`.
pub open spec fn name_run(s: Seq<char>, i: int) -> int
    decreases s.len() - i,
{
    if i < 0 || i >= s.len() || !is_name_char(s[i]) {
        0
    } else {
        1 + name_run(s, i + 1)
    }
}

/// The length of the run of spaces starting at `i`.
pub open spec fn space_run(s: Seq<char>, i: int) -> int
    decreases s.len() - i,
{
    if i < 0 || i >= s.len() || s[i] != ' ' {
        0
    } else {
        1 + space_run(s, i + 1)
    }
}

/// What the dependency argument `s` means: the name and the version text, or
/// nothing when `s` does not have the shape `name [= text]`.
pub open spec fn parse_dep(s: Seq<char>) -> Option<(Seq<char>, Seq<char>)> {
    let n = name_run(s, 0);
    if n == 0 {
        None
    } else {
        let j = n + space_run(s, n);
        if j == s.len() {
            Some((s.take(n), "\"*\""@))
        } else if s[j] != '=' {
            None
        } else {
            let k = j + 1 + space_run(s, j + 1);
            if k < s.len() {
                Some((s.take(n), s.skip(k)))
            } else if k > j + 1 {
                Some((s.take(n), " "@))
            } else {
                None
            }
        }
    }
}

/// Parses a dependency argument into its name and version text.
#[verifier::loop_isolation(false)]
pub fn parse_dep_argument(arg: &str) -> (r: Result<(String, String), Error>)
    ensures
        match parse_dep(arg@) {
            Some(nv) => r matches Ok(p) && p.0@ == nv.0 && p.1@ == nv.1,
            None => r matches Err(e) && e@ == ErrV::MalformedDependencyArgument,
        },
{
    let len = arg.unicode_len();
    let mut i: usize = 0;
    while i < len && arg.get_char(i) != '=' && arg.get_char(i) != ' '
        invariant
            i <= len,
            name_run(arg@, 0) == i + name_run(arg@, i as int),
        decreases len - i,
    {
        proof {
            assert(name_run(arg@, i as int) == 1 + name_run(arg@, i + 1));
        }
        i = i + 1;
    }
    proof {
        assert(name_run(arg@, i as int) == 0);
    }
    let n = i;
    if n == 0 {
        return Err(Error::MalformedDependencyArgument);
    }
    while i < len && arg.get_char(i) == ' '
        invariant
            n <= i <= len,
            space_run(arg@, n as int) == i - n + space_run(arg@, i as int),
        decreases len - i,
    {
        proof {
            assert(space_run(arg@, i as int) == 1 + space_run(arg@, i + 1));
        }
        i = i + 1;
    }
    proof {
        assert(space_run(arg@, i as int) == 0);
    }
    let name = arg.substring_char(0, n).to_owned();
    if i == len {
        return Ok((name, String::from_str("\"*\"")));
    }
    if arg.get_char(i) != '=' {
        return Err(Error::MalformedDependencyArgument);
    }
    let j = i;
    i = i + 1;
    while i < len && arg.get_char(i) == ' '
        invariant
            j + 1 <= i <= len,
            space_run(arg@, j + 1) == i - j - 1 + space_run(arg@, i as int),
        decreases len - i,
    {
        proof {
            assert(space_run(arg@, i as int) == 1 + space_run(arg@, i + 1));
        }
        i = i + 1;
    }
    proof {
        assert(space_run(arg@, i as int) == 0);
    }
    if i < len {
        let version = arg.substring_char(i, len).to_owned();
        proof {
            assert(arg@.subrange(i as int, len as int) =~= arg@.skip(i as int));
        }
        Ok((name, version))
    } else if i > j + 1 {
        Ok((name, String::from_str(" ")))
    } else {
        Err(Error::MalformedDependencyArgument)
    }
}

} // verus!
