use vstd::prelude::*;

verus! {

/// What happens at the last step: `Clamp` stays there (stepping through full
/// snapshots), `Exhaust` terminates (replaying a decision list, where at least one
/// decision stays visible so the cursor never retreats below 1).
#[derive(Clone, Copy, Debug, PartialEq, Eq, Structural)]
pub enum Policy {
    Clamp,
    Exhaust,
}

/// The controller's state: the index of the step on display, or the end of the session.
#[derive(Clone, Copy, Debug, PartialEq, Eq, Structural)]
pub enum Cursor {
    Active(usize),
    Terminated,
}

/// A user command.
#[derive(Clone, Copy, Debug, PartialEq, Eq, Structural)]
pub enum Command {
    Advance,
    Retreat,
    Quit,
}

/// The lowest index that `Retreat` reaches under a policy.
pub open spec fn lower_bound(policy: Policy) -> nat {
    match policy {
        Policy::Clamp => 0,
        Policy::Exhaust => 1,
    }
}

/// The state after `cmd`, over `len` steps.
pub open spec fn next_cursor(policy: Policy, len: nat, c: Cursor, cmd: Command) -> Cursor {
    match c {
        Cursor::Terminated => Cursor::Terminated,
        Cursor::Active(i) => match cmd {
            Command::Quit => Cursor::Terminated,
            Command::Advance => if i + 1 < len {
                Cursor::Active((i + 1) as usize)
            } else {
                match policy {
                    Policy::Clamp => Cursor::Active(i),
                    Policy::Exhaust => Cursor::Terminated,
                }
            },
            Command::Retreat => if i > lower_bound(policy) {
                Cursor::Active((i - 1) as usize)
            } else {
                Cursor::Active(i)
            },
        },
    }
}

/// A cursor over `len` steps.
pub struct Navigator {
    policy: Policy,
    len: usize,
    cursor: Cursor,
}

impl Navigator {
    pub closed spec fn spec_policy(&self) -> Policy {
        self.policy
    }

    pub closed spec fn spec_len(&self) -> nat {
        self.len as nat
    }

    pub closed spec fn spec_cursor(&self) -> Cursor {
        self.cursor
    }

    /// An active cursor points at a step.
    pub open spec fn wf(&self) -> bool {
        match self.spec_cursor() {
            Cursor::Active(i) => i < self.spec_len(),
            Cursor::Terminated => true,
        }
    }

    /// Starts at the first step; with no step at all, the session is over at once.
    pub fn new(policy: Policy, len: usize) -> (n: Navigator)
        ensures
            n.wf(),
            n.spec_policy() == policy,
            n.spec_len() == len,
            n.spec_cursor() == (if len == 0 {
                Cursor::Terminated
            } else {
                Cursor::Active(0)
            }),
    {
        let cursor = if len == 0 {
            Cursor::Terminated
        } else {
            Cursor::Active(0)
        };
        Navigator { policy, len, cursor }
    }

    pub fn policy(&self) -> (p: Policy)
        ensures
            p == self.spec_policy(),
    {
        self.policy
    }

    pub fn len(&self) -> (n: usize)
        ensures
            n == self.spec_len(),
    {
        self.len
    }

    pub fn cursor(&self) -> (c: Cursor)
        ensures
            c == self.spec_cursor(),
    {
        self.cursor
    }

    pub fn is_terminated(&self) -> (t: bool)
        ensures
            t == (self.spec_cursor() == Cursor::Terminated),
    {
        match self.cursor {
            Cursor::Terminated => true,
            Cursor::Active(_) => false,
        }
    }

    /// Carries out one command.
    pub fn apply(&mut self, cmd: Command)
        requires
            old(self).wf(),
        ensures
            final(self).wf(),
            final(self).spec_policy() == old(self).spec_policy(),
            final(self).spec_len() == old(self).spec_len(),
            final(self).spec_cursor() == next_cursor(
                old(self).spec_policy(),
                old(self).spec_len(),
                old(self).spec_cursor(),
                cmd,
            ),
    {
        match self.cursor {
            Cursor::Terminated => {},
            Cursor::Active(i) => {
                self.cursor = match cmd {
                    Command::Quit => Cursor::Terminated,
                    Command::Advance => if i + 1 < self.len {
                        Cursor::Active(i + 1)
                    } else {
                        match self.policy {
                            Policy::Clamp => Cursor::Active(i),
                            Policy::Exhaust => Cursor::Terminated,
                        }
                    },
                    Command::Retreat => {
                        let lower: usize = match self.policy {
                            Policy::Clamp => 0,
                            Policy::Exhaust => 1,
                        };
                        if i > lower {
                            Cursor::Active(i - 1)
                        } else {
                            Cursor::Active(i)
                        }
                    },
                };
            },
        }
    }

    /// Moves to the next step (see `apply`).
    pub fn advance(&mut self)
        requires
            old(self).wf(),
        ensures
            final(self).wf(),
            final(self).spec_policy() == old(self).spec_policy(),
            final(self).spec_len() == old(self).spec_len(),
            final(self).spec_cursor() == next_cursor(
                old(self).spec_policy(),
                old(self).spec_len(),
                old(self).spec_cursor(),
                Command::Advance,
            ),
    {
        self.apply(Command::Advance)
    }

    /// Moves to the previous step (see `apply`).
    pub fn retreat(&mut self)
        requires
            old(self).wf(),
        ensures
            final(self).wf(),
            final(self).spec_policy() == old(self).spec_policy(),
            final(self).spec_len() == old(self).spec_len(),
            final(self).spec_cursor() == next_cursor(
                old(self).spec_policy(),
                old(self).spec_len(),
                old(self).spec_cursor(),
                Command::Retreat,
            ),
    {
        self.apply(Command::Retreat)
    }

    /// Ends the session.
    pub fn quit(&mut self)
        requires
            old(self).wf(),
        ensures
            final(self).wf(),
            final(self).spec_policy() == old(self).spec_policy(),
            final(self).spec_len() == old(self).spec_len(),
            final(self).spec_cursor() == Cursor::Terminated,
    {
        self.apply(Command::Quit)
    }
}

/// The command bound to a key: `q` quits, `h` retreats, `l` advances; other keys do nothing.
pub fn command_for_char(c: char) -> (r: Option<Command>)
    ensures
        r == (if c == 'q' {
            Some(Command::Quit)
        } else if c == 'h' {
            Some(Command::Retreat)
        } else if c == 'l' {
            Some(Command::Advance)
        } else {
            None::<Command>
        }),
{
    if c == 'q' {
        Some(Command::Quit)
    } else if c == 'h' {
        Some(Command::Retreat)
    } else if c == 'l' {
        Some(Command::Advance)
    } else {
        None
    }
}

} // verus!
