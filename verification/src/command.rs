//! The token list for one-shot execution: the user's command, run as an `aws`
//! subcommand under the chosen profile.

use crate::text::seq_views;
use crate::text::str_eq;
use vstd::prelude::*;

verus! {

/// The tokens actually spawned: the caller's tokens, prefixed with the
/// literal `aws` unless they already start with it.
pub open spec fn invocation_tokens(args: Seq<Seq<char>>) -> Seq<Seq<char>> {
    if args.len() > 0 && args[0] == "aws"@ {
        args
    } else {
        seq!["aws"@] + args
    }
}

/// Builds the full program-plus-arguments token list for one `aws` invocation
/// from the user's command tokens.
pub fn build_aws_invocation(command_args: &Vec<String>) -> (r: Vec<String>)
    requires
        command_args@.len() >= 1,
    ensures
        seq_views(r@) == invocation_tokens(seq_views(command_args@)),
{
    let mut r: Vec<String> = Vec::new();
    let prefixed = !str_eq(command_args[0].as_str(), "aws");
    if prefixed {
        r.push(String::from_str("aws"));
    }
    let ghost base: int = if prefixed {
        1
    } else {
        0
    };
    let mut i: usize = 0;
    while i < command_args.len()
        invariant
            i <= command_args@.len(),
            command_args@.len() >= 1,
            base == (if prefixed {
                1int
            } else {
                0int
            }),
            prefixed == (command_args@[0]@ != "aws"@),
            r@.len() == base + i,
            prefixed ==> r@[0]@ == "aws"@,
            forall|j: int| 0 <= j < i ==> r@[base + j]@ == command_args@[j]@,
        decreases command_args@.len() - i,
    {
        r.push(command_args[i].clone());
        i += 1;
    }
    proof {
        assert(seq_views(r@) =~= invocation_tokens(seq_views(command_args@)));
    }
    r
}

} // verus!
