//! The one server process of the launcher.
use vstd::prelude::*;

verus! {

/// The place of the server process: it belongs to the launch of one number, and
/// holds at most one process.
pub struct ProcessSlot<C> {
    pub generation: u64,
    pub child: Option<C>,
}

/// What stopping a process that may not be there gives.
pub open spec fn stopped<C, S: FnOnce(C) -> Result<(), String>>(
    stop: S,
    child: Option<C>,
    outcome: Result<(), String>,
) -> bool {
    match child {
        Some(c) => call_ensures(stop, (c,), outcome),
        None => outcome is Ok,
    }
}

/// Stops a process, if there is one.
fn stop_child<C, S: FnOnce(C) -> Result<(), String>>(child: Option<C>, stop: S) -> (r: Result<
    (),
    String,
>)
    requires
        child is Some ==> call_requires(stop, (child->0,)),
    ensures
        stopped(stop, child, r),
{
    match child {
        Some(c) => stop(c),
        None => Ok(()),
    }
}

impl<C> ProcessSlot<C> {
    /// A place without a process, of no launch.
    pub fn new() -> (r: Self)
        ensures
            r.generation == 0,
            r.child is None,
    {
        ProcessSlot { generation: 0, child: None }
    }

    /// Takes the process out of its place.
    fn take_child(&mut self) -> (r: Option<C>)
        ensures
            r == old(self).child,
            final(self).child is None,
            final(self).generation == old(self).generation,
    {
        let mut child: Option<C> = None;
        std::mem::swap(&mut child, &mut self.child);
        child
    }

    /// Gives the place to another launch. The process of the one before is
    /// stopped; where that fails, the place stays with it.
    pub fn activate<S: FnOnce(C) -> Result<(), String>>(&mut self, generation: u64, stop: S) -> (r:
        Result<(), String>)
        requires
            old(self).child is Some ==> call_requires(stop, (old(self).child->0,)),
        ensures
            stopped(stop, old(self).child, r),
            final(self).child is None,
            final(self).generation == (if r is Ok {
                generation
            } else {
                old(self).generation
            }),
    {
        let child = self.take_child();
        let outcome = stop_child(child, stop);
        match outcome {
            Ok(_) => {
                self.generation = generation;
            },
            Err(_) => {},
        }
        outcome
    }

    /// Puts a process into the place. One of a launch that the place no longer
    /// belongs to is stopped instead, and the place stays as it is: a launch that
    /// was ended cannot install its process.
    pub fn replace_for_generation<S: FnOnce(C) -> Result<(), String>>(
        &mut self,
        generation: u64,
        child: C,
        stop: S,
    ) -> (r: Result<bool, String>)
        requires
            forall|c: C| #[trigger] call_requires(stop, (c,)),
        ensures
            final(self).generation == old(self).generation,
            if old(self).generation != generation {
                final(self).child == old(self).child && exists|outcome: Result<(), String>|
                    #[trigger] call_ensures(stop, (child,), outcome) && match outcome {
                        Ok(_) => r == Ok::<bool, String>(false),
                        Err(e) => r == Err::<bool, String>(e),
                    }
            } else {
                exists|outcome: Result<(), String>|
                    #[trigger] stopped(stop, old(self).child, outcome) && match outcome {
                        Ok(_) => r == Ok::<bool, String>(true) && final(self).child == Some(child),
                        Err(e) => r == Err::<bool, String>(e) && final(self).child is None,
                    }
            },
    {
        if self.generation != generation {
            let outcome = stop(child);
            assert(call_ensures(stop, (child,), outcome));
            return match outcome {
                Ok(_) => Ok(false),
                Err(e) => Err(e),
            };
        }
        let before = self.take_child();
        let outcome = stop_child(before, stop);
        assert(stopped(stop, before, outcome));
        match outcome {
            Ok(_) => {
                self.child = Some(child);
                Ok(true)
            },
            Err(e) => Err(e),
        }
    }

    /// Stops the process of a launch, if the place still belongs to it.
    pub fn stop_for_generation<S: FnOnce(C) -> Result<(), String>>(
        &mut self,
        generation: u64,
        stop: S,
    ) -> (r: Result<(), String>)
        requires
            old(self).child is Some ==> call_requires(stop, (old(self).child->0,)),
        ensures
            final(self).generation == old(self).generation,
            if old(self).generation == generation {
                final(self).child is None && stopped(stop, old(self).child, r)
            } else {
                final(self).child == old(self).child && r is Ok
            },
    {
        if self.generation == generation {
            let child = self.take_child();
            stop_child(child, stop)
        } else {
            Ok(())
        }
    }

    /// Stops the process, whichever launch it is of.
    pub fn stop_all<S: FnOnce(C) -> Result<(), String>>(&mut self, stop: S) -> (r: Result<
        (),
        String,
    >)
        requires
            old(self).child is Some ==> call_requires(stop, (old(self).child->0,)),
        ensures
            final(self).generation == old(self).generation,
            final(self).child is None,
            stopped(stop, old(self).child, r),
    {
        let child = self.take_child();
        stop_child(child, stop)
    }

    /// Whether the place belongs to a launch.
    pub fn is_generation_active(&self, generation: u64) -> (r: bool)
        ensures
            r == (self.generation == generation),
    {
        self.generation == generation
    }

    /// Whether the process of a launch runs. Looking at a process gives it back
    /// where it runs; one that does not is let go.
    pub fn is_running_for_generation<W: FnOnce(C) -> Option<C>>(
        &mut self,
        generation: u64,
        look: W,
    ) -> (r: bool)
        requires
            old(self).child is Some ==> call_requires(look, (old(self).child->0,)),
        ensures
            final(self).generation == old(self).generation,
            if old(self).generation != generation {
                !r && final(self).child == old(self).child
            } else {
                match old(self).child {
                    Some(c) => call_ensures(look, (c,), final(self).child) && r
                        == final(self).child is Some,
                    None => !r && final(self).child is None,
                }
            },
    {
        if self.generation != generation {
            return false;
        }
        let child = self.take_child();
        match child {
            Some(c) => {
                let left = look(c);
                let runs = left.is_some();
                self.child = left;
                runs
            },
            None => false,
        }
    }
}

} // verus!
