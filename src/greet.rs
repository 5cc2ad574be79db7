//! The per-frame greeting and the plugin that bundles it with start-up.

use crate::people::Name;
use crate::timer::GreetTimer;
use vstd::prelude::*;
use vstd::string::*;

verus! {

/// The line that greets a person: `hello <name>!`.
pub open spec fn greeting(name: Seq<char>) -> Seq<char> {
    "hello "@ + name + "!"@
}

/// The lines that one frame prints, given how many intervals its tick
/// completed: one greeting per person when at least one did, else none.
pub open spec fn greetings(finished: nat, names: Seq<Name>) -> Seq<Seq<char>> {
    if finished > 0 {
        names.map_values(|n: Name| greeting(n.0@))
    } else {
        Seq::empty()
    }
}

/// Builds the greeting line for one name.
pub fn greeting_line(name: &Name) -> (line: String)
    ensures
        line@ == greeting(name.0@),
{
    let mut line = String::from_str("hello ");
    line.append(name.0.as_str());
    line.append("!");
    line
}

/// One frame of greeting: advances `timer` by `delta_ns` nanoseconds and,
/// when that completes an interval, returns one greeting line per name, in
/// the order of `names`; otherwise returns no line.
pub fn greet_people(timer: &mut GreetTimer, delta_ns: u64, names: &Vec<Name>) -> (lines: Vec<
    String,
>)
    requires
        old(timer).wf(),
        old(timer).can_tick(delta_ns),
    ensures
        final(timer).wf(),
        final(timer).duration_ns == old(timer).duration_ns,
        final(timer).elapsed_ns == crate::timer::elapsed_after_tick(
            old(timer).duration_ns as nat,
            old(timer).elapsed_ns as nat,
            delta_ns as nat,
        ),
        final(timer).times_finished_this_tick == crate::timer::finished_in_tick(
            old(timer).duration_ns as nat,
            old(timer).elapsed_ns as nat,
            delta_ns as nat,
        ),
        lines@.len() == greetings(final(timer).times_finished_this_tick as nat, names@).len(),
        forall|k: int|
            0 <= k < lines@.len() ==> #[trigger] lines@[k]@ == greetings(
                final(timer).times_finished_this_tick as nat,
                names@,
            )[k],
{
    timer.tick(delta_ns);
    let mut lines: Vec<String> = Vec::new();
    if timer.just_finished() {
        let mut i: usize = 0;
        while i < names.len()
            invariant
                i <= names@.len(),
                lines@.len() == i,
                forall|k: int| 0 <= k < i ==> lines@[k]@ == greeting(names@[k].0@),
            decreases names@.len() - i,
        {
            let line = greeting_line(&names[i]);
            lines.push(line);
            i = i + 1;
        }
    }
    lines
}

/// The plugin: it installs the two-second greeting timer, runs
/// `add_people` once at start-up and `greet_people` on every frame.
#[derive(Clone, Copy, Debug)]
pub struct HelloPlugin;

impl HelloPlugin {
    /// The timer resource that the plugin installs.
    pub fn greet_timer(&self) -> (t: GreetTimer)
        ensures
            t.wf(),
            t.duration_ns == crate::timer::GREET_INTERVAL_NS,
            t.elapsed_ns == 0,
            t.times_finished_this_tick == 0,
    {
        GreetTimer::new()
    }
}

} // verus!
