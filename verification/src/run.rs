//! Carrying an action out, one command at a time, on a best-effort basis.
//!
//! The host performs each pending command and reports how it went. A failure
//! is taken note of and then ignored: the run never retries and never stops
//! early, so the window still ends up shown and focused where that is possible.

use vstd::prelude::*;
use crate::action::commands_of;
use crate::action::Action;
use crate::action::Command;
use crate::action::Outcome;

verus! {

/// The progress made on one action.
#[derive(Clone, Copy, Debug, PartialEq, Eq)]
pub struct Run {
    action: Action,
    issued: usize,
}

impl Run {
    /// The action being carried out.
    pub closed spec fn action(self) -> Action {
        self.action
    }

    /// How many of the action's commands the host has already been through.
    pub closed spec fn issued(self) -> nat {
        if self.issued <= commands_of(self.action).len() {
            self.issued as nat
        } else {
            commands_of(self.action).len()
        }
    }

    /// The commands issued so far, in order.
    pub open spec fn sent(self) -> Seq<Command> {
        commands_of(self.action()).take(self.issued() as int)
    }

    /// The commands still to come, in order.
    pub open spec fn remaining(self) -> Seq<Command> {
        commands_of(self.action()).skip(self.issued() as int)
    }

    /// The run as it stands before anything was issued.
    pub closed spec fn fresh(action: Action) -> Run {
        Run { action, issued: 0 }
    }

    /// The run after the host reported `outcome` for the pending command.
    /// The report moves the run on by one command whatever it says; with
    /// nothing pending there is nothing to move.
    pub closed spec fn after(self, outcome: Outcome) -> Run {
        if self.issued < commands_of(self.action).len() {
            Run { action: self.action, issued: (self.issued + 1) as usize }
        } else {
            self
        }
    }

    /// The run after a whole series of reports, oldest first.
    pub open spec fn after_all(self, outcomes: Seq<Outcome>) -> Run
        decreases outcomes.len(),
    {
        if outcomes.len() == 0 {
            self
        } else {
            self.after_all(outcomes.drop_last()).after(outcomes.last())
        }
    }

    /// A fresh run has issued nothing of its action.
    pub proof fn lemma_fresh(action: Action)
        ensures
            Run::fresh(action).action() == action,
            Run::fresh(action).issued() == 0,
            Run::fresh(action).sent() == Seq::<Command>::empty(),
            Run::fresh(action).remaining() == commands_of(action),
    {
    }

    /// One report moves the run on by exactly one command of the same action,
    /// or leaves it alone when every command has been issued. What the report
    /// says plays no part.
    pub proof fn lemma_after(self, outcome: Outcome)
        ensures
            self.issued() <= commands_of(self.action()).len(),
            self.after(outcome).action() == self.action(),
            self.after(outcome).issued() == if self.issued() < commands_of(self.action()).len() {
                self.issued() + 1
            } else {
                self.issued()
            },
            self.after(outcome) == self.after(Outcome::Done),
    {
    }

    /// A series of reports moves the run on by as many commands as there are
    /// reports, up to the end of the action, whatever the reports say.
    pub proof fn lemma_after_all(self, outcomes: Seq<Outcome>)
        ensures
            self.after_all(outcomes).action() == self.action(),
            self.after_all(outcomes).issued() == if self.issued() + outcomes.len() <= commands_of(
                self.action(),
            ).len() {
                self.issued() + outcomes.len()
            } else {
                commands_of(self.action()).len()
            },
        decreases outcomes.len(),
    {
        if outcomes.len() > 0 {
            let earlier = self.after_all(outcomes.drop_last());
            self.lemma_after_all(outcomes.drop_last());
            earlier.lemma_after(outcomes.last());
        }
        self.lemma_after(Outcome::Done);
    }

    /// Begins carrying out `action`.
    pub fn start(action: Action) -> (run: Run)
        ensures
            run == Run::fresh(action),
            run.action() == action,
            run.issued() == 0,
    {
        Run { action, issued: 0 }
    }

    /// The command the host must perform next, or `None` once all are issued.
    pub fn pending(&self) -> (c: Option<Command>)
        ensures
            self.remaining().len() > 0 ==> c == Some(self.remaining()[0]),
            self.remaining().len() == 0 ==> c is None,
            c is Some <==> self.issued() < commands_of(self.action()).len(),
    {
        self.action.command_at(self.issued)
    }

    /// True once every command of the action has been issued.
    pub fn is_finished(&self) -> (done: bool)
        ensures
            done == (self.issued() == commands_of(self.action()).len()),
            done == (self.remaining().len() == 0),
    {
        self.issued >= self.action.command_count()
    }

    /// Takes note of how the pending command went and moves on to the next.
    /// A failure changes nothing: the next command is issued all the same.
    pub fn record(&mut self, outcome: Outcome)
        ensures
            *final(self) == old(self).after(outcome),
            final(self).action() == old(self).action(),
            final(self).issued() == if old(self).issued() < commands_of(old(self).action()).len() {
                old(self).issued() + 1
            } else {
                old(self).issued()
            },
    {
        if self.issued < self.action.command_count() {
            self.issued = self.issued + 1;
        }
    }
}

} // verus!
