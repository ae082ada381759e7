//! One verification call, driven step by step.
//!
//! The proof systems themselves live in a backend that this crate does not
//! see. A call is therefore a [`Session`]: it names the next [`Request`] for
//! the backend, takes the backend's answer, and either names the request after
//! it or ends with the result of the call.

use crate::codec::{decode, decoded, is_fault_of, is_hex_chars, is_hex_text, text_bytes};
use crate::error::VerifyError;
use vstd::prelude::*;

verus! {

/// The proof systems that the gateway serves.
#[derive(Clone, Copy, Debug, PartialEq, Eq)]
pub enum ProofKind {
    Halo2,
    Groth16,
    /// Halo2 proofs and keys, with public inputs in a layout of their own.
    Zeos,
}

/// What one request asks of the backend.
#[derive(Clone, Copy, Debug, PartialEq, Eq)]
pub enum Stage {
    /// Build the proof from the proof bytes.
    Proof,
    /// Deserialize the public inputs.
    Inputs,
    /// Build the verifying key from the key bytes.
    Key,
    /// Precompute the prepared form of the verifying key.
    Prepare,
    /// Run the verification predicate on key, proof and inputs.
    Verify,
}

/// A request to the backend: the stage to perform, and the proof kind whose
/// routine for that stage performs it.
#[derive(Clone, Copy, Debug, PartialEq, Eq)]
pub struct Request {
    pub stage: Stage,
    pub backend: ProofKind,
}

/// The requests of a call for `kind`, in the order in which they are made.
///
/// Only Groth16 prepares its key. Zeos goes the way of Halo2 but for the
/// public inputs, which its own routine reads.
pub open spec fn plan(kind: ProofKind) -> Seq<Request> {
    match kind {
        ProofKind::Halo2 => seq![
            (Request { stage: Stage::Proof, backend: ProofKind::Halo2 }),
            (Request { stage: Stage::Inputs, backend: ProofKind::Halo2 }),
            (Request { stage: Stage::Key, backend: ProofKind::Halo2 }),
            (Request { stage: Stage::Verify, backend: ProofKind::Halo2 }),
        ],
        ProofKind::Groth16 => seq![
            (Request { stage: Stage::Proof, backend: ProofKind::Groth16 }),
            (Request { stage: Stage::Inputs, backend: ProofKind::Groth16 }),
            (Request { stage: Stage::Key, backend: ProofKind::Groth16 }),
            (Request { stage: Stage::Prepare, backend: ProofKind::Groth16 }),
            (Request { stage: Stage::Verify, backend: ProofKind::Groth16 }),
        ],
        ProofKind::Zeos => seq![
            (Request { stage: Stage::Proof, backend: ProofKind::Halo2 }),
            (Request { stage: Stage::Inputs, backend: ProofKind::Zeos }),
            (Request { stage: Stage::Key, backend: ProofKind::Halo2 }),
            (Request { stage: Stage::Verify, backend: ProofKind::Halo2 }),
        ],
    }
}

/// Where a call for `kind` stands once the backend has given `answers`, one
/// to each request in turn: with its result, or with `None` while a request
/// is pending.
///
/// A stage before the last that fails ends the call with `MalformedArtifact`.
/// Otherwise the answer to the last stage is the verdict. Answers beyond the
/// end of the call do not count.
pub open spec fn outcome(kind: ProofKind, answers: Seq<bool>) -> Option<Result<bool, VerifyError>> {
    let last = plan(kind).len() - 1;
    if exists|i: int| 0 <= i < answers.len() && i < last && !answers[i] {
        Some(Err(VerifyError::MalformedArtifact))
    } else if answers.len() > last {
        Some(Ok(answers[last]))
    } else {
        None
    }
}

/// A call reports a valid proof exactly where the backend succeeded at every
/// stage of the plan and found the proof valid at the last. Whatever else the
/// backend answers, the call gives `false` or an error, never `true`.
pub proof fn valid_rests_on_backend(kind: ProofKind, answers: Seq<bool>)
    ensures
        outcome(kind, answers) == Some(Ok::<bool, VerifyError>(true)) <==> {
            &&& answers.len() >= plan(kind).len()
            &&& forall|i: int| 0 <= i < plan(kind).len() ==> answers[i]
        },
{
}

/// A verification call that waits for the backend's answer to one request.
#[derive(Clone, Copy, Debug, PartialEq, Eq)]
pub struct Session {
    kind: ProofKind,
    position: usize,
}

/// How a call stands after an answer of the backend.
#[derive(Clone, Copy, Debug, PartialEq, Eq)]
pub enum Progress {
    /// The call goes on with the request of this session.
    Pending(Session),
    /// The call is over: a verdict on the proof, or the reason for which
    /// there is none.
    Finished(Result<bool, VerifyError>),
}

impl Session {
    #[verifier::type_invariant]
    spec fn in_plan(self) -> bool {
        self.position < plan(self.kind).len()
    }

    /// The proof kind of the call.
    pub closed spec fn kind(self) -> ProofKind {
        self.kind
    }

    /// The answers that the backend has given so far, one to each request in
    /// turn. A call that still waits has heard of successes only.
    pub closed spec fn answers(self) -> Seq<bool> {
        Seq::new(self.position as nat, |i: int| true)
    }

    /// Begins a call for `kind`. Both calling conventions begin here, the one
    /// with raw bytes at once and the one with hex text after decoding.
    pub fn open(kind: ProofKind) -> (session: Session)
        ensures
            session.kind() == kind,
            session.answers() == Seq::<bool>::empty(),
    {
        let session = Session { kind, position: 0 };
        assert(session.answers() =~= Seq::<bool>::empty());
        session
    }

    /// The request that the backend has to answer next.
    pub fn request(&self) -> (request: Request)
        ensures
            outcome(self.kind(), self.answers()) is None,
            request == plan(self.kind())[self.answers().len() as int],
    {
        proof {
            use_type_invariant(self);
        }
        let stage = match self.position {
            0 => Stage::Proof,
            1 => Stage::Inputs,
            2 => Stage::Key,
            3 => match self.kind {
                ProofKind::Groth16 => Stage::Prepare,
                _ => Stage::Verify,
            },
            _ => Stage::Verify,
        };
        let backend = match (self.kind, stage) {
            (ProofKind::Zeos, Stage::Inputs) => ProofKind::Zeos,
            (ProofKind::Zeos, _) => ProofKind::Halo2,
            (kind, _) => kind,
        };
        Request { stage, backend }
    }

    /// Takes the backend's answer to the pending request: `ok` says whether
    /// the stage succeeded, and for the last stage whether the proof is valid.
    ///
    /// The call ends as soon as the answers so far decide it; until then it
    /// goes on with the next request.
    pub fn advance(self, ok: bool) -> (progress: Progress)
        ensures
            match progress {
                Progress::Pending(next) => {
                    &&& outcome(self.kind(), self.answers().push(ok)) is None
                    &&& next.kind() == self.kind()
                    &&& next.answers() == self.answers().push(ok)
                },
                Progress::Finished(result) => outcome(self.kind(), self.answers().push(ok))
                    == Some(result),
            },
    {
        proof {
            use_type_invariant(&self);
        }
        let ghost heard = self.answers().push(ok);
        let last: usize = match self.kind {
            ProofKind::Groth16 => 4,
            _ => 3,
        };
        if self.position == last {
            Progress::Finished(Ok(ok))
        } else if ok {
            let next = Session { kind: self.kind, position: self.position + 1 };
            assert(next.answers() =~= heard);
            Progress::Pending(next)
        } else {
            assert(!heard[self.position as int]);
            Progress::Finished(Err(VerifyError::MalformedArtifact))
        }
    }
}

/// The first of the three texts that is not hex, in the order proof, public
/// inputs, verifying key.
pub open spec fn first_refused(proof: Seq<u8>, inputs: Seq<u8>, vk: Seq<u8>) -> Seq<u8>
    recommends
        !is_hex_text(proof) || !is_hex_text(inputs) || !is_hex_text(vk),
{
    if !is_hex_text(proof) {
        proof
    } else if !is_hex_text(inputs) {
        inputs
    } else {
        vk
    }
}

/// Decodes the three hex texts of a call into its raw artifacts.
///
/// Succeeds exactly if all three are hex. Otherwise the call is over before
/// any backend is asked: the error is `InvalidEncoding` with the fault of the
/// first text that is not hex.
pub fn decode_inputs_strings(proof_str: String, inputs_str: String, vk_str: String) -> (r: Result<
    (Vec<u8>, Vec<u8>, Vec<u8>),
    VerifyError,
>)
    ensures
        r is Ok <==> is_hex_chars(proof_str@) && is_hex_chars(inputs_str@) && is_hex_chars(vk_str@),
        match r {
            Ok((proof, inputs, vk)) => {
                &&& is_hex_text(text_bytes(proof_str@))
                &&& is_hex_text(text_bytes(inputs_str@))
                &&& is_hex_text(text_bytes(vk_str@))
                &&& proof@ == decoded(text_bytes(proof_str@))
                &&& inputs@ == decoded(text_bytes(inputs_str@))
                &&& vk@ == decoded(text_bytes(vk_str@))
            },
            Err(VerifyError::InvalidEncoding(fault)) => is_fault_of(
                first_refused(text_bytes(proof_str@), text_bytes(inputs_str@), text_bytes(vk_str@)),
                fault,
            ),
            Err(VerifyError::MalformedArtifact) => false,
        },
{
    let proof = match decode(proof_str.as_str()) {
        Ok(bytes) => bytes,
        Err(fault) => {
            return Err(VerifyError::InvalidEncoding(fault));
        },
    };
    let inputs = match decode(inputs_str.as_str()) {
        Ok(bytes) => bytes,
        Err(fault) => {
            return Err(VerifyError::InvalidEncoding(fault));
        },
    };
    let vk = match decode(vk_str.as_str()) {
        Ok(bytes) => bytes,
        Err(fault) => {
            return Err(VerifyError::InvalidEncoding(fault));
        },
    };
    Ok((proof, inputs, vk))
}

} // verus!
