//! The signal discipline: which terminal signals the shell ignores, and what
//! a child gets back before it runs its program.

use vstd::prelude::*;

verus! {

/// The terminal signals that the discipline is about.
#[derive(Debug, Clone, Copy, PartialEq, Eq, Structural)]
pub enum ShellSignal {
    /// The job-control stop signal.
    Stop,
    /// The quit signal.
    Quit,
    /// The interrupt signal.
    Interrupt,
}

/// Whether a child gets the former handling of `signal` back: that of the
/// interrupt signal alone.
pub open spec fn spec_restored_in_child(signal: ShellSignal) -> bool {
    signal == ShellSignal::Interrupt
}

/// The signals that the shell sets to be ignored, in the order in which it
/// does so: the interrupt signal last, whose former handling is kept.
pub fn ignored_by_shell() -> (signals: [ShellSignal; 3])
    ensures
        signals@ == seq![ShellSignal::Stop, ShellSignal::Quit, ShellSignal::Interrupt],
{
    let signals = [ShellSignal::Stop, ShellSignal::Quit, ShellSignal::Interrupt];
    assert(signals@ =~= seq![ShellSignal::Stop, ShellSignal::Quit, ShellSignal::Interrupt]);
    signals
}

/// Whether a child gets the former handling of `signal` back.
pub fn restored_in_child(signal: ShellSignal) -> (restored: bool)
    ensures
        restored == spec_restored_in_child(signal),
{
    match signal {
        ShellSignal::Interrupt => true,
        _ => false,
    }
}

/// What the shell keeps of the handling of signals: how the interrupt
/// signal was handled before the shell set it to be ignored. `A` is the
/// system's description of a handling.
pub struct SignalDiscipline<A> {
    prior_interrupt: Option<A>,
}

impl<A> SignalDiscipline<A> {
    /// The former handling of the interrupt signal, where one is kept.
    pub closed spec fn spec_prior(&self) -> Option<A> {
        self.prior_interrupt
    }

    /// The state before the shell has changed anything: nothing is kept.
    pub fn new() -> (discipline: Self)
        ensures
            discipline.spec_prior() is None,
    {
        SignalDiscipline { prior_interrupt: None }
    }

    /// Keeps `prior`, the handling of the interrupt signal that was in force
    /// when the shell set the signal to be ignored.
    pub fn enter_shell_mode(&mut self, prior: A)
        ensures
            final(self).spec_prior() == Some(prior),
    {
        self.prior_interrupt = Some(prior);
    }

    /// The handling of the interrupt signal that a child sets before it
    /// runs its program: the one that was kept, and none where the shell
    /// kept none.
    pub fn prepare_child(&self) -> (prior: Option<&A>)
        ensures
            match prior {
                Some(a) => self.spec_prior() == Some(*a),
                None => self.spec_prior() is None,
            },
    {
        self.prior_interrupt.as_ref()
    }
}

} // verus!
