use vstd::prelude::*;

verus! {

/// The pending intent recorded for one core until the next dispatch.
#[derive(Debug, Clone, Copy, PartialEq, Eq, Structural)]
pub enum ResumeAction {
    /// Leave the core's run state exactly as the hardware reports it.
    Unchanged,
    /// Resume the core.
    Resume,
    /// Single-step the core.
    Step,
}

/// The hardware call that one recorded action asks for.
#[derive(Debug, Clone, Copy, PartialEq, Eq, Structural)]
pub enum CoreCommand {
    Run,
    Step,
}

/// One run or step call that applying the table issues, named by the core it
/// goes to.
#[derive(Debug, Clone, Copy, PartialEq, Eq, Structural)]
pub struct IssuedCommand {
    pub core: usize,
    pub command: CoreCommand,
}

/// The outcome that applying the table records for one core.
#[derive(Debug, Clone, Copy, PartialEq, Eq, Structural)]
pub enum CoreOutcome {
    /// The core's action was Unchanged; no call was issued.
    Untouched,
    /// A call was issued; `ok` tells whether the hardware accepted it.
    Issued { command: CoreCommand, ok: bool },
}

/// The hardware call, if any, that one action asks for.
pub open spec fn spec_command_for(action: ResumeAction) -> Option<CoreCommand> {
    match action {
        ResumeAction::Unchanged => None,
        ResumeAction::Resume => Some(CoreCommand::Run),
        ResumeAction::Step => Some(CoreCommand::Step),
    }
}

/// The calls that applying the table issues for the cores from `i` upward:
/// one call per core whose action is Resume or Step, visited in ascending
/// core order.
pub open spec fn plan_from(actions: Seq<ResumeAction>, i: int) -> Seq<IssuedCommand>
    decreases actions.len() - i,
{
    if i < 0 || i >= actions.len() {
        Seq::empty()
    } else {
        match spec_command_for(actions[i]) {
            None => plan_from(actions, i + 1),
            Some(c) => seq![IssuedCommand { core: i as usize, command: c }] + plan_from(
                actions,
                i + 1,
            ),
        }
    }
}

/// Per-core resume intents, one slot per core index, owned by the
/// coordinator and passed by reference into the dispatcher; never global
/// state.
#[derive(Debug, Clone, PartialEq, Eq)]
pub struct ResumeTable {
    pub actions: Vec<ResumeAction>,
}

impl ResumeTable {
    /// A fresh table: every core's run state is left as the hardware has it.
    pub fn new(core_count: usize) -> (r: ResumeTable)
        ensures
            r.actions@.len() == core_count,
            forall|i: int| 0 <= i < core_count ==> r.actions@[i] == ResumeAction::Unchanged,
    {
        let mut actions: Vec<ResumeAction> = Vec::new();
        let mut index: usize = 0;
        while index < core_count
            invariant
                index <= core_count,
                actions@.len() == index,
                forall|i: int| 0 <= i < index ==> actions@[i] == ResumeAction::Unchanged,
            decreases core_count - index,
        {
            actions.push(ResumeAction::Unchanged);
            index = index + 1;
        }
        ResumeTable { actions }
    }

    /// The number of core slots.
    pub fn core_count(&self) -> (r: usize)
        ensures
            r == self.actions@.len(),
    {
        self.actions.len()
    }

    /// Record the action for one core, leaving every other slot alone.
    pub fn set(&mut self, core: usize, action: ResumeAction)
        requires
            core < old(self).actions@.len(),
        ensures
            final(self).actions@ == old(self).actions@.update(core as int, action),
    {
        self.actions.set(core, action);
    }

    /// The recorded action of one core.
    pub fn get(&self, core: usize) -> (r: ResumeAction)
        requires
            core < self.actions@.len(),
        ensures
            r == self.actions@[core as int],
    {
        self.actions[core]
    }

    /// Reset every slot to the same action.
    pub fn clear_all_to(&mut self, action: ResumeAction)
        ensures
            final(self).actions@.len() == old(self).actions@.len(),
            forall|i: int| 0 <= i < final(self).actions@.len() ==> final(self).actions@[i] == action,
    {
        let count = self.actions.len();
        let mut index: usize = 0;
        while index < count
            invariant
                index <= count,
                self.actions@.len() == count,
                forall|i: int| 0 <= i < index ==> self.actions@[i] == action,
            decreases count - index,
        {
            self.actions.set(index, action);
            index = index + 1;
        }
    }

    /// The run and step calls that applying this table issues, in ascending
    /// core order; cores left Unchanged get no call. The table itself is not
    /// reset by applying it: repeated resume requests with no intervening
    /// clear re-issue the same calls.
    pub fn plan(&self) -> (r: Vec<IssuedCommand>)
        ensures
            r@ == plan_from(self.actions@, 0),
    {
        let ghost a = self.actions@;
        let count = self.actions.len();
        let mut out: Vec<IssuedCommand> = Vec::new();
        let mut index: usize = 0;
        while index < count
            invariant
                index <= count,
                a == self.actions@,
                count == a.len(),
                out@ + plan_from(a, index as int) == plan_from(a, 0),
            decreases count - index,
        {
            match self.actions[index] {
                ResumeAction::Unchanged => {
                    proof {
                        assert(plan_from(a, index as int) == plan_from(a, index + 1));
                    }
                },
                ResumeAction::Resume => {
                    let cmd = IssuedCommand { core: index, command: CoreCommand::Run };
                    proof {
                        assert(out@.push(cmd) + plan_from(a, index + 1) =~= out@ + plan_from(
                            a,
                            index as int,
                        ));
                    }
                    out.push(cmd);
                },
                ResumeAction::Step => {
                    let cmd = IssuedCommand { core: index, command: CoreCommand::Step };
                    proof {
                        assert(out@.push(cmd) + plan_from(a, index + 1) =~= out@ + plan_from(
                            a,
                            index as int,
                        ));
                    }
                    out.push(cmd);
                },
            }
            index = index + 1;
        }
        proof {
            assert(out@ =~= plan_from(a, 0));
        }
        out
    }
    /// Fold the results of the issued calls back into one outcome per core.
    /// `results` holds one entry per planned call, in plan order; every
    /// planned call was attempted, so a failure on one core never hides the
    /// outcome of another.
    pub fn apply_report(&self, results: &Vec<bool>) -> (r: Vec<CoreOutcome>)
        requires
            results@.len() == plan_from(self.actions@, 0).len(),
        ensures
            r@.len() == self.actions@.len(),
            forall|core: int|
                0 <= core < r@.len() && self.actions@[core] == ResumeAction::Unchanged
                    ==> r@[core] == CoreOutcome::Untouched,
            forall|k: int|
                0 <= k < plan_from(self.actions@, 0).len()
                    ==> r@[#[trigger] plan_from(self.actions@, 0)[k].core as int]
                    == (CoreOutcome::Issued {
                    command: plan_from(self.actions@, 0)[k].command,
                    ok: results@[k],
                }),
    {
        let ghost a = self.actions@;
        let ghost p = plan_from(a, 0);
        let plan = self.plan();
        let count = self.actions.len();
        let mut out: Vec<CoreOutcome> = Vec::new();
        let mut index: usize = 0;
        while index < count
            invariant
                index <= count,
                out@.len() == index,
                forall|i: int| 0 <= i < index ==> out@[i] == CoreOutcome::Untouched,
            decreases count - index,
        {
            out.push(CoreOutcome::Untouched);
            index = index + 1;
        }
        let mut k: usize = 0;
        while k < plan.len()
            invariant
                a == self.actions@,
                p == plan_from(a, 0),
                plan@ == p,
                results@.len() == p.len(),
                count == a.len(),
                out@.len() == a.len(),
                k <= p.len(),
                forall|k2: int|
                    0 <= k2 < k ==> out@[#[trigger] p[k2].core as int] == (CoreOutcome::Issued {
                        command: p[k2].command,
                        ok: results@[k2],
                    }),
                forall|core: int|
                    0 <= core < out@.len() && (forall|k2: int|
                        0 <= k2 < k ==> #[trigger] p[k2].core != core) ==> out@[core]
                        == CoreOutcome::Untouched,
            decreases plan@.len() - k,
        {
            proof {
                lemma_plan_exactly_pending(a, 0);
            }
            let entry = plan[k];
            out.set(entry.core, CoreOutcome::Issued { command: entry.command, ok: results[k] });
            k = k + 1;
        }
        proof {
            lemma_plan_exactly_pending(a, 0);
            assert forall|core: int|
                0 <= core < out@.len() && a[core] == ResumeAction::Unchanged implies out@[core]
                == CoreOutcome::Untouched by {
                assert forall|k2: int| 0 <= k2 < p.len() implies #[trigger] p[k2].core
                    != core by {
                    assert(spec_command_for(a[p[k2].core as int]) == Some(p[k2].command));
                }
            }
        }
        out
    }
}

/// Applying the table issues exactly one call per core whose action is
/// Resume or Step, and none for a core left Unchanged: every planned call
/// names an in-range core and carries the command its slot asks for, the
/// planned cores are strictly ascending (so no core is visited twice), and
/// every core with a pending action appears in the plan.
pub proof fn lemma_plan_exactly_pending(actions: Seq<ResumeAction>, i: int)
    requires
        0 <= i <= actions.len(),
        actions.len() <= usize::MAX,
    ensures
        forall|k: int|
            0 <= k < plan_from(actions, i).len() ==> i <= #[trigger] plan_from(actions, i)[k].core
                < actions.len() && spec_command_for(actions[plan_from(actions, i)[k].core as int])
                == Some(plan_from(actions, i)[k].command),
        forall|k1: int, k2: int|
            0 <= k1 < k2 < plan_from(actions, i).len() ==> #[trigger] plan_from(actions, i)[k1].core
                < #[trigger] plan_from(actions, i)[k2].core,
        forall|j: int|
            i <= j < actions.len() && actions[j] != ResumeAction::Unchanged ==> exists|k: int|
                0 <= k < plan_from(actions, i).len() && #[trigger] plan_from(actions, i)[k].core
                    == j,
    decreases actions.len() - i,
{
    if i < actions.len() {
        lemma_plan_exactly_pending(actions, i + 1);
        let rest = plan_from(actions, i + 1);
        match spec_command_for(actions[i]) {
            None => {
                assert(plan_from(actions, i) == rest);
            },
            Some(c) => {
                let head = IssuedCommand { core: i as usize, command: c };
                let whole = plan_from(actions, i);
                assert(whole == seq![head] + rest);
                assert(whole[0] == head);
                assert(forall|k: int| 1 <= k < whole.len() ==> #[trigger] whole[k] == rest[k - 1]);
                assert forall|j: int|
                    i <= j < actions.len() && actions[j] != ResumeAction::Unchanged implies exists|
                    k: int,
                |
                    0 <= k < whole.len() && #[trigger] whole[k].core == j by {
                    if j == i {
                        assert(whole[0].core == j);
                    } else {
                        let k0 = choose|k0: int|
                            0 <= k0 < rest.len() && #[trigger] rest[k0].core == j;
                        assert(whole[k0 + 1].core == j);
                    }
                }
            },
        }
    }
}

} // verus!
