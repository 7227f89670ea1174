//! A command line assembled from a command key and its arguments.
use vstd::prelude::*;

use crate::text::{append_str, chars_of, owned, string_of, string_views};

verus! {

pub struct CliCommandTemplate {
    command_key: String,
    args: Vec<String>,
}

/// The arguments joined with single spaces.
pub open spec fn joined(args: Seq<Seq<char>>) -> Seq<char>
    decreases args.len(),
{
    if args.len() == 0 {
        Seq::empty()
    } else if args.len() == 1 {
        args[0]
    } else {
        joined(args.drop_last()) + seq![' '] + args.last()
    }
}

impl CliCommandTemplate {
    pub closed spec fn key(&self) -> Seq<char> {
        self.command_key@
    }

    pub closed spec fn arg_views(&self) -> Seq<Seq<char>> {
        string_views(self.args@)
    }

    pub fn new(command_key: &str, args: Vec<String>) -> (res: Self)
        ensures
            res.key() == command_key@,
            res.arg_views() == string_views(args@),
    {
        CliCommandTemplate { command_key: owned(command_key), args }
    }

    /// The command key directly followed by the arguments joined with spaces.
    pub fn assemble(self) -> (res: String)
        ensures
            res@ == self.key() + joined(self.arg_views()),
    {
        let ghost all = string_views(self.args@);
        let mut out: Vec<char> = chars_of(self.command_key.as_str());
        let ghost start = out@;
        let mut i: usize = 0;
        while i < self.args.len()
            invariant
                i <= self.args@.len(),
                all == string_views(self.args@),
                out@ == start + joined(all.take(i as int)),
            decreases self.args@.len() - i,
        {
            assert(all.take(i + 1).drop_last() =~= all.take(i as int));
            assert(all.take(i + 1).last() == self.args@[i as int]@);
            if i > 0 {
                out.push(' ');
            } else {
                assert(all.take(0) =~= Seq::<Seq<char>>::empty());
            }
            append_str(&mut out, self.args[i].as_str());
            proof {
                if i == 0 {
                    assert(out@ =~= start + joined(all.take(1)));
                } else {
                    assert(out@ =~= start + joined(all.take(i + 1)));
                }
            }
            i = i + 1;
        }
        assert(all.take(i as int) =~= all);
        string_of(out.as_slice())
    }
}

} // verus!
