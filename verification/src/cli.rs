//! The daemon's command line.

use crate::text::same;
use vstd::prelude::*;
use vstd::string::*;

verus! {

/// What the command line asks for.
#[derive(Debug)]
pub struct Options {
    /// The profile that every controller starts with.
    pub profile_name: String,
    /// Whether controllers on USB are left alone.
    pub force_bluetooth: bool,
    /// Whether lightbar and rumble are used over Bluetooth too.
    pub allow_bt_feedback: bool,
}

/// The profile that the first `n` arguments name: the last `--profile` with an
/// argument behind it counts, whatever that argument is.
pub open spec fn named_profile(args: Seq<Seq<char>>, n: int) -> Seq<char>
    decreases n,
{
    if n <= 1 {
        "Default"@
    } else if args[n - 1] == "--profile"@ && n < args.len() {
        args[n]
    } else {
        named_profile(args, n - 1)
    }
}

/// Whether a flag stands among the arguments, the program's name not counted.
pub open spec fn flagged(args: Seq<Seq<char>>, flag: Seq<char>) -> bool {
    exists|i: int| 1 <= i < args.len() && #[trigger] args[i] == flag
}

fn has_flag(args: &Vec<String>, flag: &str) -> (r: bool)
    ensures
        r == flagged(crate::text::texts(args@), flag@),
{
    let ghost all = crate::text::texts(args@);
    let mut i: usize = 1;
    while i < args.len()
        invariant
            1 <= i,
            all == crate::text::texts(args@),
            forall|n: int| 1 <= n < i && n < args@.len() ==> #[trigger] all[n] != flag@,
        decreases args.len() - i,
    {
        if same(args[i].as_str(), flag) {
            assert(all[i as int] == flag@);
            return true;
        }
        i = i + 1;
    }
    false
}

/// Parses the command line, program name first. Unknown arguments have no
/// effect.
pub fn parse_args(args: &Vec<String>) -> (r: Options)
    ensures
        ({
            let all = crate::text::texts(args@);
            &&& r.profile_name@ == named_profile(all, all.len() as int)
            &&& r.force_bluetooth == flagged(all, "--bluetooth"@)
            &&& r.allow_bt_feedback == flagged(all, "--bt-feedback"@)
        }),
{
    let ghost all = crate::text::texts(args@);
    let mut profile_name = "Default".to_owned();
    let mut i: usize = 1;
    assert(args@.len() == 0 ==> named_profile(all, 0) == "Default"@);
    while i < args.len()
        invariant
            1 <= i,
            i <= args@.len() || (i == 1 && args@.len() == 0),
            all == crate::text::texts(args@),
            profile_name@ == named_profile(all, i as int),
        decreases args.len() - i,
    {
        assert(all[i as int] == args@[i as int]@);
        if same(args[i].as_str(), "--profile") {
            if i + 1 < args.len() {
                assert(all[i + 1] == args@[i + 1]@);
                profile_name = args[i + 1].clone();
            }
        }
        i = i + 1;
    }
    assert(named_profile(all, 1) == named_profile(all, 0));
    Options {
        profile_name,
        force_bluetooth: has_flag(args, "--bluetooth"),
        allow_bt_feedback: has_flag(args, "--bt-feedback"),
    }
}

/// The profile is what follows the last `--profile` that anything follows; without
/// one it is `Default`.
pub proof fn law_last_profile_counts(args: Seq<Seq<char>>, at: int)
    requires
        1 <= at < args.len() - 1,
        args[at] == "--profile"@,
        forall|i: int| at < i < args.len() - 1 ==> #[trigger] args[i] != "--profile"@,
    ensures
        named_profile(args, args.len() as int) == args[at + 1],
{
    lemma_named_from(args, at, args.len() as int);
}

proof fn lemma_named_from(args: Seq<Seq<char>>, at: int, n: int)
    requires
        1 <= at < args.len() - 1,
        at < n <= args.len(),
        args[at] == "--profile"@,
        forall|i: int| at < i < args.len() - 1 ==> #[trigger] args[i] != "--profile"@,
    ensures
        named_profile(args, n) == args[at + 1],
    decreases n,
{
    if n > at + 1 {
        if n < args.len() {
            assert(args[n - 1] != "--profile"@);
        }
        lemma_named_from(args, at, n - 1);
    }
}

/// Without a `--profile` that anything follows, the profile is `Default`.
pub proof fn law_default_profile(args: Seq<Seq<char>>, n: int)
    requires
        n <= args.len(),
        forall|i: int| 1 <= i < args.len() - 1 ==> #[trigger] args[i] != "--profile"@,
    ensures
        named_profile(args, n) == "Default"@,
    decreases n,
{
    if n > 1 {
        if n < args.len() {
            assert(args[n - 1] != "--profile"@);
        }
        law_default_profile(args, n - 1);
    }
}

/// A flag counts wherever it stands behind the program's name, and other arguments
/// do not change that.
pub proof fn law_flags_stand_anywhere(args: Seq<Seq<char>>, more: Seq<char>, flag: Seq<char>)
    requires
        args.len() > 0,
    ensures
        flagged(args.push(more), flag) <==> flagged(args, flag) || more == flag,
        flagged(args.take(1), flag) == false,
{
    let next = args.push(more);
    if flagged(args, flag) {
        let i = choose|i: int| 1 <= i < args.len() && #[trigger] args[i] == flag;
        assert(next[i] == flag);
    }
    if more == flag {
        assert(next[args.len() as int] == flag);
    }
    if flagged(next, flag) {
        let i = choose|i: int| 1 <= i < next.len() && #[trigger] next[i] == flag;
        if i < args.len() {
            assert(args[i] == flag);
        }
    }
}

} // verus!
