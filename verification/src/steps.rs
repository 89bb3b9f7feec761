//! Scans as sequences of steps: each match found either adds an item, is
//! skipped, or stops the scan for good (where reading it would fail).

use vstd::prelude::*;

verus! {

/// Why a scan stopped early.
#[derive(Clone, Copy, Debug, PartialEq, Eq, Structural)]
pub enum Halt {
    /// Reading a match would cut a text inside a character, or use a capture
    /// group that took no part in the match.
    Panicked,
    /// A match came without its whole-match group, or with a group outside
    /// the character boundaries of the searched text.
    MisplacedGroup,
}

/// What one match contributes to a scan.
#[derive(Debug, PartialEq, Eq)]
pub enum Step<T> {
    Skip,
    Emit(T),
    Stop(Halt),
}

/// The items a scan found, in order, and why it stopped, if it stopped early.
#[derive(Debug, PartialEq, Eq)]
pub struct Scan<T> {
    pub found: Vec<T>,
    pub halt: Option<Halt>,
}

impl<T> View for Scan<T> {
    type V = (Seq<T>, Option<Halt>);

    open spec fn view(&self) -> (Seq<T>, Option<Halt>) {
        (self.found@, self.halt)
    }
}

/// One more step: nothing changes once the scan has stopped.
pub open spec fn apply_step<T>(acc: (Seq<T>, Option<Halt>), step: Step<T>) -> (
    Seq<T>,
    Option<Halt>,
) {
    if acc.1 is Some {
        acc
    } else {
        match step {
            Step::Skip => acc,
            Step::Emit(x) => (acc.0.push(x), None),
            Step::Stop(h) => (acc.0, Some(h)),
        }
    }
}

/// The scan `acc` continued by `steps`, in order.
pub open spec fn run_steps<T>(acc: (Seq<T>, Option<Halt>), steps: Seq<Step<T>>) -> (
    Seq<T>,
    Option<Halt>,
)
    decreases steps.len(),
{
    if steps.len() == 0 {
        acc
    } else {
        apply_step(run_steps(acc, steps.drop_last()), steps.last())
    }
}

/// The scan that has found nothing yet.
pub open spec fn fresh<T>() -> (Seq<T>, Option<Halt>) {
    (Seq::empty(), None)
}

/// Running two lists of steps one after the other is running their concatenation.
pub proof fn lemma_run_concat<T>(acc: (Seq<T>, Option<Halt>), a: Seq<Step<T>>, b: Seq<Step<T>>)
    ensures
        run_steps(acc, a + b) == run_steps(run_steps(acc, a), b),
    decreases b.len(),
{
    if b.len() == 0 {
        assert(a + b =~= a);
    } else {
        assert((a + b).drop_last() =~= a + b.drop_last());
        assert((a + b).last() == b.last());
        lemma_run_concat(acc, a, b.drop_last());
    }
}

/// A stopped scan stays as it is.
pub proof fn lemma_run_halted<T>(acc: (Seq<T>, Option<Halt>), steps: Seq<Step<T>>)
    requires
        acc.1 is Some,
    ensures
        run_steps(acc, steps) == acc,
    decreases steps.len(),
{
    if steps.len() > 0 {
        lemma_run_halted(acc, steps.drop_last());
    }
}

/// Running the first `i + 1` steps is running the first `i` and then step `i`.
pub proof fn lemma_run_take_next<T>(acc: (Seq<T>, Option<Halt>), steps: Seq<Step<T>>, i: int)
    requires
        0 <= i < steps.len(),
    ensures
        run_steps(acc, steps.take(i + 1)) == apply_step(run_steps(acc, steps.take(i)), steps[i]),
{
    assert(steps.take(i + 1).drop_last() =~= steps.take(i));
}

/// The items a scan finds are those of its `Emit` steps, and it stops exactly
/// at its first `Stop` step.
pub proof fn lemma_run_items<T>(acc: (Seq<T>, Option<Halt>), steps: Seq<Step<T>>, x: T)
    requires
        run_steps(acc, steps).0.contains(x),
    ensures
        acc.0.contains(x) || exists|i: int| 0 <= i < steps.len() && steps[i] == Step::Emit(x),
    decreases steps.len(),
{
    if steps.len() > 0 {
        let prev = run_steps(acc, steps.drop_last());
        if prev.0.contains(x) {
            lemma_run_items(acc, steps.drop_last(), x);
            if !acc.0.contains(x) {
                let i = choose|i: int| 0 <= i < steps.drop_last().len() && steps.drop_last()[i]
                    == Step::Emit(x);
                assert(steps[i] == Step::Emit(x));
            }
        } else {
            let k = choose|k: int| 0 <= k < run_steps(acc, steps).0.len() && run_steps(
                acc,
                steps,
            ).0[k] == x;
            assert(k == prev.0.len());
            assert(steps[steps.len() - 1] == Step::Emit(x));
        }
    }
}

impl<T> Scan<T> {
    /// A scan that has found nothing yet.
    pub fn new() -> (res: Scan<T>)
        ensures
            res@ == fresh::<T>(),
    {
        Scan { found: Vec::new(), halt: None }
    }

    /// Takes one more step.
    pub fn take_step(&mut self, step: Step<T>)
        ensures
            final(self)@ == apply_step(old(self)@, step),
    {
        if self.halt.is_none() {
            match step {
                Step::Skip => {},
                Step::Emit(x) => {
                    self.found.push(x);
                },
                Step::Stop(h) => {
                    self.halt = Some(h);
                },
            }
        }
    }
}

} // verus!
