//! Command-line argument parsing: each recognized flag sets a key, later
//! occurrences winning over earlier ones.
use vstd::prelude::*;

use crate::parser::error::str_eq;
use crate::parser::scan::{spec_tag, expect_tag};

verus! {

/// The key/value pairs one argument contributes, appended in order.
pub open spec fn arg_pairs(a: Seq<char>) -> Seq<(Seq<char>, Seq<char>)> {
    let base = Seq::<(Seq<char>, Seq<char>)>::empty();
    let with_debug = if a == "--debug"@ {
        base.push(("debug"@, "true"@))
    } else {
        base
    };
    let with_nick = match spec_tag(a, "--nick="@) {
        Some(v) => with_debug.push(("nick"@, v)),
        None => with_debug,
    };
    let with_channel = match spec_tag(a, "--channel="@) {
        Some(v) => with_nick.push(("channel"@, v)),
        None => with_nick,
    };
    let with_debug_level = if a == "--debug"@ {
        with_channel.push(("log_level"@, "debug"@))
    } else {
        with_channel
    };
    let with_info_level = if a == "--info"@ {
        with_debug_level.push(("log_level"@, "info"@))
    } else {
        with_debug_level
    };
    let with_warn_level = if a == "--warn"@ {
        with_info_level.push(("log_level"@, "warn"@))
    } else {
        with_info_level
    };
    let with_error_level = if a == "--error"@ {
        with_warn_level.push(("log_level"@, "error"@))
    } else {
        with_warn_level
    };
    if a == "--log"@ {
        with_error_level.push(("logging"@, "true"@))
    } else {
        with_error_level
    }
}

/// The pairs all arguments contribute, in argument order.
pub open spec fn args_pairs(args: Seq<Seq<char>>) -> Seq<(Seq<char>, Seq<char>)>
    decreases args.len(),
{
    if args.len() == 0 {
        Seq::empty()
    } else {
        args_pairs(args.drop_last()) + arg_pairs(args.last())
    }
}

/// The value under `key`: that of the latest pair holding it, since a later
/// occurrence of a flag wins.
pub open spec fn spec_lookup(pairs: Seq<(Seq<char>, Seq<char>)>, key: Seq<char>) -> Option<
    Seq<char>,
>
    decreases pairs.len(),
{
    if pairs.len() == 0 {
        None
    } else if pairs.last().0 == key {
        Some(pairs.last().1)
    } else {
        spec_lookup(pairs.drop_last(), key)
    }
}

/// The parsed arguments: recognized keys and their values, later wins.
pub struct ArgMap<'a> {
    pairs: Vec<(&'static str, &'a str)>,
}

/// The spec-level value of the stored pairs.
pub open spec fn pairs_view(v: Seq<(&'static str, &str)>) -> Seq<(Seq<char>, Seq<char>)> {
    v.map_values(|p: (&'static str, &str)| (p.0@, p.1@))
}

impl<'a> View for ArgMap<'a> {
    type V = Seq<(Seq<char>, Seq<char>)>;

    closed spec fn view(&self) -> Seq<(Seq<char>, Seq<char>)> {
        pairs_view(self.pairs@)
    }
}

impl<'a> ArgMap<'a> {
    /// The value set for `key`, if any flag set it.
    pub fn get(&self, key: &str) -> (r: Option<&'a str>)
        ensures
            match r {
                Some(v) => spec_lookup(self@, key@) == Some(v@),
                None => spec_lookup(self@, key@) is None,
            },
    {
        let n = self.pairs.len();
        proof {
            assert(self.pairs@.take(n as int) =~= self.pairs@);
        }
        let mut i: usize = n;
        while i > 0
            invariant
                0 <= i <= n,
                n == self.pairs.len(),
                spec_lookup(self@, key@) == spec_lookup(pairs_view(self.pairs@.take(i as int)), key@),
            decreases i,
        {
            i = i - 1;
            let (k, v) = self.pairs[i];
            proof {
                let taken = pairs_view(self.pairs@.take(i + 1));
                assert(taken.last() == (k@, v@));
                assert(taken.drop_last() =~= pairs_view(self.pairs@.take(i as int)));
            }
            if str_eq(k, key) {
                return Some(v);
            }
        }
        proof {
            assert(pairs_view(self.pairs@.take(0)) =~= Seq::<(Seq<char>, Seq<char>)>::empty());
        }
        None
    }
}

/// Parse the command-line arguments into the recognized key/value pairs, in
/// order.
#[verifier::rlimit(100)]
pub fn parse<'a>(args: &'a [String]) -> (r: ArgMap<'a>)
    ensures
        r@ == args_pairs(args@.map_values(|a: String| a@)),
{
    let mut pairs: Vec<(&'static str, &'a str)> = Vec::new();
    let n = args.len();
    let mut i: usize = 0;
    while i < n
        invariant
            0 <= i <= n,
            n == args@.len(),
            pairs_view(pairs@) == args_pairs(args@.map_values(|a: String| a@).take(i as int)),
        decreases n - i,
    {
        let input: &'a str = args[i].as_str();
        let ghost before = pairs@;
        if str_eq(input, "--debug") {
            pairs.push(("debug", "true"));
        }
        if let Ok(v) = expect_tag(input, "--nick=") {
            pairs.push(("nick", v));
        }
        if let Ok(v) = expect_tag(input, "--channel=") {
            pairs.push(("channel", v));
        }
        if str_eq(input, "--debug") {
            pairs.push(("log_level", "debug"));
        }
        if str_eq(input, "--info") {
            pairs.push(("log_level", "info"));
        }
        if str_eq(input, "--warn") {
            pairs.push(("log_level", "warn"));
        }
        if str_eq(input, "--error") {
            pairs.push(("log_level", "error"));
        }
        if str_eq(input, "--log") {
            pairs.push(("logging", "true"));
        }
        proof {
            let am = args@.map_values(|a: String| a@);
            assert(am[i as int] == input@);
            assert(pairs_view(pairs@) =~= pairs_view(before) + arg_pairs(input@));
            assert(am.take(i + 1).drop_last() =~= am.take(i as int));
            assert(am.take(i + 1).last() == input@);
        }
        i += 1;
    }
    proof {
        assert(args@.map_values(|a: String| a@).take(n as int) =~= args@.map_values(
            |a: String| a@,
        ));
    }
    ArgMap { pairs }
}

} // verus!
