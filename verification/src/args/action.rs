//! Actions: the work that a command does once dispatch has settled on it.

use crate::error::{raised, relay, RunError};
use core::marker::PhantomData;
use vstd::prelude::*;

verus! {

/// What can stand behind an [`Action`]: something to call with the arguments
/// that follow the command's name.
trait Handler {
    /// Whether a call with `args` is permitted.
    spec fn accepts(&self, args: Seq<String>) -> bool;

    /// Whether a call with `args` can end in `outcome`.
    spec fn yields(&self, args: Seq<String>, outcome: Result<String, RunError>) -> bool;

    fn invoke(&self, args: &[String]) -> (outcome: Result<String, RunError>)
        requires
            self.accepts(args@),
        ensures
            self.yields(args@, outcome),
    ;
}

/// A function that is an action's handler, with the kind of failure that it
/// returns.
struct Callback<F, E> {
    call: F,
    failure: PhantomData<E>,
}

impl<F, E> Handler for Callback<F, E> where
    F: Fn(&[String]) -> Result<String, E>,
    E: Into<RunError>,
{
    spec fn accepts(&self, args: Seq<String>) -> bool {
        forall|given: &[String]| given@ == args ==> call_requires(self.call, (given,))
    }

    spec fn yields(&self, args: Seq<String>, outcome: Result<String, RunError>) -> bool {
        exists|given: &[String], raw: Result<String, E>|
            given@ == args && call_ensures(self.call, (given,), raw) && raised(raw, outcome)
    }

    fn invoke(&self, args: &[String]) -> (outcome: Result<String, RunError>) {
        relay((self.call)(args))
    }
}

/// A command's action: a function from the arguments to a text, or to a
/// failure. An action can be called with any arguments.
pub struct Action {
    handler: Box<dyn Handler>,
}

impl Action {
    #[verifier::type_invariant]
    spec fn callable(self) -> bool {
        forall|args: Seq<String>| self.handler.accepts(args)
    }

    /// Whether a call of the action with `args` can end in `outcome`.
    pub closed spec fn yields(&self, args: Seq<String>, outcome: Result<String, RunError>) -> bool {
        self.handler.yields(args, outcome)
    }

    /// Whether every call of the action, whatever its arguments, succeeds
    /// with `text`.
    pub open spec fn always_answers(&self, text: Seq<char>) -> bool {
        forall|args: Seq<String>, outcome: Result<String, RunError>| #[trigger]
            self.yields(args, outcome) ==> (outcome matches Ok(s) && s@ == text)
    }

    /// Makes an action of `f`, which must be callable with any arguments. The
    /// action yields what `f` returns, a failure turned into a `RunError`, and
    /// nothing else.
    pub fn new<F, E>(f: F) -> (action: Action) where
        F: Fn(&[String]) -> Result<String, E> + 'static,
        E: Into<RunError> + 'static,

        requires
            forall|args: &[String]| call_requires(f, (args,)),
        ensures
            forall|args: Seq<String>, outcome: Result<String, RunError>| #[trigger]
                action.yields(args, outcome) <==> exists|given: &[String], raw: Result<String, E>|
                    given@ == args && call_ensures(f, (given,), raw) && raised(raw, outcome),
    {
        let callback = Callback { call: f, failure: PhantomData };
        let action = Action { handler: Box::new(callback) };
        assert forall|args: Seq<String>, outcome: Result<String, RunError>| #[trigger]
            action.yields(args, outcome) <==> exists|given: &[String], raw: Result<String, E>|
                given@ == args && call_ensures(f, (given,), raw) && raised(raw, outcome) by {
            assert(action.yields(args, outcome) == callback.yields(args, outcome));
            assert(callback.call == f);
        }
        action
    }

    /// Calls the action with `args`.
    pub fn invoke(&self, args: &[String]) -> (outcome: Result<String, RunError>)
        ensures
            self.yields(args@, outcome),
    {
        proof {
            use_type_invariant(self);
        }
        self.handler.invoke(args)
    }
}

} // verus!
