//! The three parties outside this library that a call asks for work, and the
//! record of what they were asked.
//!
//! The parties are reached through `Collaborators` alone. Each of its three
//! methods asks one party once and writes the exchange down, so the record
//! holds every exchange that was made through it, in order, and nothing
//! else.

use crate::error::{BroadcastError, CredentialError, EngineError};
use crate::steps::{EngineCall, ExecutionModel, Identity, SigningCredential, TransactionArtifact};
use vstd::prelude::*;

verus! {

/// The parties that a call asks for work.
#[derive(Clone, Copy, Debug, PartialEq, Eq)]
pub enum Collaborator {
    CredentialResolver,
    ExecutionEngine,
    Broadcaster,
}

/// One exchange with a party: what it was handed and what it answered. Of an
/// engine call the request is kept, not the randomness that went with it.
pub enum Exchange {
    Credential { selector: Option<Identity>, resolved: Result<SigningCredential, CredentialError> },
    Execution { request: ExecutionModel, produced: Result<TransactionArtifact, EngineError> },
    Broadcast { artifact: TransactionArtifact, submitted: Result<String, BroadcastError> },
}

impl Exchange {
    /// The party that the exchange was with.
    pub open spec fn party(self) -> Collaborator {
        match self {
            Exchange::Credential { .. } => Collaborator::CredentialResolver,
            Exchange::Execution { .. } => Collaborator::ExecutionEngine,
            Exchange::Broadcast { .. } => Collaborator::Broadcaster,
        }
    }
}

/// Whether the three parties take what a call hands them: the resolver every
/// selector, the engine every well-formed call, the broadcaster every
/// transaction.
pub open spec fn collaborators_accept<R, E, B>(resolver: R, engine: E, broadcaster: B) -> bool where
    R: Fn(Option<Identity>) -> Result<SigningCredential, CredentialError>,
    E: Fn(EngineCall) -> Result<TransactionArtifact, EngineError>,
    B: Fn(TransactionArtifact) -> Result<String, BroadcastError>,
 {
    &&& forall|selector: Option<Identity>| #[trigger] call_requires(resolver, (selector,))
    &&& forall|call: EngineCall|
        call.request@.well_formed() ==> #[trigger] call_requires(engine, (call,))
    &&& forall|artifact: TransactionArtifact| #[trigger] call_requires(broadcaster, (artifact,))
}

/// The credential resolver, the execution engine and the broadcaster, with
/// the record of the exchanges made with them.
pub struct Collaborators<
    R: Fn(Option<Identity>) -> Result<SigningCredential, CredentialError>,
    E: Fn(EngineCall) -> Result<TransactionArtifact, EngineError>,
    B: Fn(TransactionArtifact) -> Result<String, BroadcastError>,
> {
    resolver: R,
    engine: E,
    broadcaster: B,
    log: Ghost<Seq<Exchange>>,
}

impl<R, E, B> Collaborators<R, E, B> where
    R: Fn(Option<Identity>) -> Result<SigningCredential, CredentialError>,
    E: Fn(EngineCall) -> Result<TransactionArtifact, EngineError>,
    B: Fn(TransactionArtifact) -> Result<String, BroadcastError>,
 {
    #[verifier::type_invariant]
    spec fn ready(self) -> bool {
        collaborators_accept(self.resolver, self.engine, self.broadcaster)
    }

    /// The credential resolver.
    pub closed spec fn resolver(self) -> R {
        self.resolver
    }

    /// The execution engine.
    pub closed spec fn engine(self) -> E {
        self.engine
    }

    /// The broadcaster.
    pub closed spec fn broadcaster(self) -> B {
        self.broadcaster
    }

    /// Every exchange made with the parties so far, oldest first.
    pub closed spec fn log(self) -> Seq<Exchange> {
        self.log@
    }

    /// Whether these are the same three parties as `other`, whatever has
    /// been exchanged with either.
    pub open spec fn same_parties(self, other: Self) -> bool {
        &&& self.resolver() == other.resolver()
        &&& self.engine() == other.engine()
        &&& self.broadcaster() == other.broadcaster()
    }

    /// The three parties, with nothing exchanged yet.
    pub fn new(resolver: R, engine: E, broadcaster: B) -> (parties: Self)
        requires
            collaborators_accept(resolver, engine, broadcaster),
        ensures
            parties.resolver() == resolver,
            parties.engine() == engine,
            parties.broadcaster() == broadcaster,
            parties.log() == Seq::<Exchange>::empty(),
    {
        Collaborators { resolver, engine, broadcaster, log: Ghost(Seq::empty()) }
    }

    /// Asks the resolver, once, for the credential of `selector`, or of the
    /// default identity for `None`.
    pub fn signing_credential(&mut self, selector: Option<Identity>) -> (answer: Result<
        SigningCredential,
        CredentialError,
    >)
        ensures
            final(self).same_parties(*old(self)),
            call_ensures(old(self).resolver(), (selector,), answer),
            final(self).log() == old(self).log().push(Exchange::Credential { selector, resolved: answer }),
    {
        proof {
            use_type_invariant(&*self);
        }
        let answer = (self.resolver)(selector);
        self.log = Ghost(self.log@.push(Exchange::Credential { selector, resolved: answer }));
        answer
    }

    /// Hands the engine `call`, once.
    pub fn execute(&mut self, call: EngineCall) -> (answer: Result<
        TransactionArtifact,
        EngineError,
    >)
        requires
            call.request@.well_formed(),
        ensures
            final(self).same_parties(*old(self)),
            call_ensures(old(self).engine(), (call,), answer),
            final(self).log() == old(self).log().push(
                Exchange::Execution { request: call.request@, produced: answer },
            ),
    {
        proof {
            use_type_invariant(&*self);
        }
        let ghost request = call.request@;
        let answer = (self.engine)(call);
        self.log = Ghost(self.log@.push(Exchange::Execution { request, produced: answer }));
        answer
    }

    /// Hands the broadcaster `artifact`, once.
    pub fn broadcast(&mut self, artifact: TransactionArtifact) -> (answer: Result<
        String,
        BroadcastError,
    >)
        ensures
            final(self).same_parties(*old(self)),
            call_ensures(old(self).broadcaster(), (artifact,), answer),
            final(self).log() == old(self).log().push(Exchange::Broadcast { artifact, submitted: answer }),
    {
        proof {
            use_type_invariant(&*self);
        }
        let answer = (self.broadcaster)(artifact);
        self.log = Ghost(self.log@.push(Exchange::Broadcast { artifact, submitted: answer }));
        answer
    }
}

} // verus!
