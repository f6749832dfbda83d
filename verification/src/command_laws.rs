use vstd::prelude::*;

use crate::command::{env_text, pretty_text, CommandView};
use crate::memory::flagged;
use crate::schema::InvocationView;

verus! {

/// A command that was just made renders as its program alone.
pub proof fn law_pretty_of_new(exe: Seq<char>)
    ensures
        pretty_text(CommandView { argv: Seq::empty(), exe: exe, cwd: None, env: Seq::empty() }) == exe,
{
    assert(pretty_text(CommandView { argv: Seq::empty(), exe: exe, cwd: None, env: Seq::empty() }) =~= exe);
}

/// Adding an argument adds a space and the argument at the end of the
/// rendering.
pub proof fn law_arg_extends_pretty(c: CommandView, a: Seq<char>)
    ensures
        pretty_text(CommandView { argv: c.argv.push(a), ..c }) == pretty_text(c) + " "@ + a,
{
    assert(c.argv.push(a).drop_last() =~= c.argv);
    assert(pretty_text(CommandView { argv: c.argv.push(a), ..c }) =~= pretty_text(c) + " "@ + a);
}

/// Adding an environment pair puts `k=v ` after the pairs before it and
/// before the program.
pub proof fn law_env_extends_pretty(c: CommandView, k: Seq<char>, v: Seq<char>)
    ensures
        env_text(c.env.push((k, v))) == env_text(c.env) + k + "="@ + v + " "@,
{
    assert(c.env.push((k, v)).drop_last() =~= c.env);
}

/// Setting the working directory twice is setting it once, to the second
/// value.
pub proof fn law_current_dir_last_wins(c: CommandView, first: Seq<char>, second: Seq<char>)
    ensures
        (CommandView { cwd: Some(second), ..CommandView { cwd: Some(first), ..c } }) == (CommandView {
            cwd: Some(second),
            ..c
        }),
{
}

/// Flags that are all set keep every item; flags that are all clear keep
/// none; in any case no more items come out than went in.
pub proof fn law_flagged_bounds(items: Seq<InvocationView>, flags: Seq<bool>)
    requires
        flags.len() == items.len(),
    ensures
        (forall|i: int| 0 <= i < flags.len() ==> #[trigger] flags[i]) ==> flagged(items, flags) == items,
        (forall|i: int| 0 <= i < flags.len() ==> !#[trigger] flags[i]) ==> flagged(items, flags).len() == 0,
        flagged(items, flags).len() <= items.len(),
    decreases items.len(),
{
    if items.len() > 0 {
        let n: int = items.len() - 1;
        law_flagged_bounds(items.drop_last(), flags.take(n));
        if forall|i: int| 0 <= i < flags.len() ==> #[trigger] flags[i] {
            assert(forall|i: int| 0 <= i < n ==> #[trigger] flags.take(n)[i] == flags[i]);
            assert(flagged(items, flags) =~= items);
        }
        if forall|i: int| 0 <= i < flags.len() ==> !#[trigger] flags[i] {
            assert(forall|i: int| 0 <= i < n ==> #[trigger] flags.take(n)[i] == flags[i]);
        }
    } else {
        assert(flagged(items, flags) =~= items);
    }
}


/// Setting a working directory puts `cd <dir> && ` before what the command
/// renders to without one.
pub proof fn law_cwd_prefixes_pretty(c: CommandView, d: Seq<char>)
    ensures
        pretty_text(CommandView { cwd: Some(d), ..c }) == "cd "@ + d + " && "@ + pretty_text(
            CommandView { cwd: None, ..c },
        ),
{
    assert(pretty_text(CommandView { cwd: Some(d), ..c }) =~= "cd "@ + d + " && "@ + pretty_text(
        CommandView { cwd: None, ..c },
    ));
}

} // verus!
