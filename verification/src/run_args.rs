//! The flags handed to the test runner.

use crate::text::lemma_texts_push;
use crate::text::texts;
use vstd::prelude::*;
use vstd::string::*;

verus! {

/// Which flags a run passes on.
#[derive(Clone, Copy, Debug, PartialEq, Eq, Structural)]
pub struct RunArgs {
    pub lib: bool,
    pub bin: bool,
    pub docs: bool,
    pub workspace: bool,
    pub no_fail_fast: bool,
}

/// The flags of `args` as the runner's command line has them: one entry for each
/// flag that is set, in the fixed order lib, bin, docs, workspace, no-fail-fast.
pub open spec fn flag_list(args: RunArgs) -> Seq<Seq<char>> {
    (if args.lib { seq!["--lib"@] } else { seq![] })
    + (if args.bin { seq!["--bin"@] } else { seq![] })
    + (if args.docs { seq!["--docs"@] } else { seq![] })
    + (if args.workspace { seq!["--workspace"@] } else { seq![] })
    + (if args.no_fail_fast { seq!["--no-fail-fast"@] } else { seq![] })
}

impl Default for RunArgs {
    /// A run over the whole workspace that goes on after a failure.
    fn default() -> (args: Self)
        ensures
            args == (RunArgs { lib: false, bin: false, docs: false, workspace: true, no_fail_fast: true }),
    {
        RunArgs { lib: false, bin: false, docs: false, workspace: true, no_fail_fast: true }
    }
}

impl RunArgs {
    /// The arguments used where the stored ones cannot be read.
    pub fn default_vec() -> (list: Vec<String>)
        ensures
            texts(list@) == seq!["--no-fail-fast"@, "--workspace"@],
    {
        let mut list: Vec<String> = Vec::new();
        list.push(String::from_str("--no-fail-fast"));
        list.push(String::from_str("--workspace"));
        proof {
            assert(texts(list@) =~= seq!["--no-fail-fast"@, "--workspace"@]);
        }
        list
    }

    /// The flags that are set, as command-line arguments.
    pub fn into_vec(self) -> (list: Vec<String>)
        ensures
            texts(list@) == flag_list(self),
    {
        let mut list: Vec<String> = Vec::new();
        proof {
            assert(texts(list@) =~= Seq::<Seq<char>>::empty());
        }
        if self.lib {
            push_flag(&mut list, "--lib");
        }
        if self.bin {
            push_flag(&mut list, "--bin");
        }
        if self.docs {
            push_flag(&mut list, "--docs");
        }
        if self.workspace {
            push_flag(&mut list, "--workspace");
        }
        if self.no_fail_fast {
            push_flag(&mut list, "--no-fail-fast");
        }
        proof {
            assert(texts(list@) =~= flag_list(self));
        }
        list
    }
}

fn push_flag(list: &mut Vec<String>, flag: &str)
    ensures
        texts(final(list)@) == texts(old(list)@).push(flag@),
{
    let flag = String::from_str(flag);
    proof {
        lemma_texts_push(list@, flag);
    }
    list.push(flag);
}

} // verus!
