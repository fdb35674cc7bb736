//! The input resolver: an action parameter is either a literal value or a
//! reference to another action's eventual output, resolved lazily against the
//! output store. Probe and run call the same resolver, so a probe's decision
//! remains valid at run time.

use vstd::prelude::*;

use crate::action::{ActionIdentity, ActionOutput, OutputVal};
use crate::errors::ActionError;
use crate::store::OutputStore;

verus! {

/// An action parameter: a literal fixed at construction time, or a forward
/// reference to the eventual output of the action named by the identity. The
/// driver must schedule the referenced action strictly before any resolution
/// of the reference; a violation surfaces as `NoActionReturn`, never as a
/// blocked read.
#[derive(Debug)]
pub enum ActionInput<T> {
    Static(T),
    Dynamic(ActionIdentity),
}

/// What resolving an input as text yields from a given store: a literal
/// resolves to itself; a reference fails on an absent entry, converts a text
/// entry, and rejects an entry of any other kind.
pub open spec fn resolve_text_spec(
    input: ActionInput<String>,
    m: Map<ActionIdentity, OutputVal>,
) -> Result<Seq<char>, ActionError> {
    match input {
        ActionInput::Static(v) => Ok(v@),
        ActionInput::Dynamic(id) => if !m.contains_key(id) {
            Err(ActionError::NoActionReturn)
        } else {
            match m[id] {
                OutputVal::Text(t) => Ok(t),
                _ => Err(ActionError::TypeConversionMismatch),
            }
        },
    }
}

/// What resolving an input as an integer yields from a given store.
pub open spec fn resolve_integer_spec(
    input: ActionInput<u64>,
    m: Map<ActionIdentity, OutputVal>,
) -> Result<u64, ActionError> {
    match input {
        ActionInput::Static(v) => Ok(v),
        ActionInput::Dynamic(id) => if !m.contains_key(id) {
            Err(ActionError::NoActionReturn)
        } else {
            match m[id] {
                OutputVal::Integer(n) => Ok(n),
                _ => Err(ActionError::TypeConversionMismatch),
            }
        },
    }
}

/// What resolving an input as a flag yields from a given store.
pub open spec fn resolve_flag_spec(
    input: ActionInput<bool>,
    m: Map<ActionIdentity, OutputVal>,
) -> Result<bool, ActionError> {
    match input {
        ActionInput::Static(v) => Ok(v),
        ActionInput::Dynamic(id) => if !m.contains_key(id) {
            Err(ActionError::NoActionReturn)
        } else {
            match m[id] {
                OutputVal::Flag(b) => Ok(b),
                _ => Err(ActionError::TypeConversionMismatch),
            }
        },
    }
}

/// A text result abstracted to its character sequence.
pub open spec fn text_result_view(r: Result<String, ActionError>) -> Result<
    Seq<char>,
    ActionError,
> {
    match r {
        Ok(s) => Ok(s@),
        Err(e) => Err(e),
    }
}

/// Resolve an input as text against the store.
pub fn resolve_text(input: &ActionInput<String>, store: &OutputStore) -> (r: Result<
    String,
    ActionError,
>)
    ensures
        text_result_view(r) == resolve_text_spec(*input, store@),
{
    match input {
        ActionInput::Static(v) => Ok(v.clone()),
        ActionInput::Dynamic(id) => match store.get_output(*id) {
            None => Err(ActionError::NoActionReturn),
            Some(out) => match out {
                ActionOutput::Text(s) => Ok(s.clone()),
                _ => Err(ActionError::TypeConversionMismatch),
            },
        },
    }
}

/// Resolve an input as an integer against the store.
pub fn resolve_integer(input: &ActionInput<u64>, store: &OutputStore) -> (r: Result<
    u64,
    ActionError,
>)
    ensures
        r == resolve_integer_spec(*input, store@),
{
    match input {
        ActionInput::Static(v) => Ok(*v),
        ActionInput::Dynamic(id) => match store.get_output(*id) {
            None => Err(ActionError::NoActionReturn),
            Some(out) => match out {
                ActionOutput::Integer(n) => Ok(*n),
                _ => Err(ActionError::TypeConversionMismatch),
            },
        },
    }
}

/// Resolve an input as a flag against the store.
pub fn resolve_flag(input: &ActionInput<bool>, store: &OutputStore) -> (r: Result<
    bool,
    ActionError,
>)
    ensures
        r == resolve_flag_spec(*input, store@),
{
    match input {
        ActionInput::Static(v) => Ok(*v),
        ActionInput::Dynamic(id) => match store.get_output(*id) {
            None => Err(ActionError::NoActionReturn),
            Some(out) => match out {
                ActionOutput::Flag(b) => Ok(*b),
                _ => Err(ActionError::TypeConversionMismatch),
            },
        },
    }
}

/// What resolving a list of inputs as text yields: the resolved texts, in
/// order, or the first resolution failure.
pub open spec fn resolved_texts_spec(
    inputs: Seq<ActionInput<String>>,
    m: Map<ActionIdentity, OutputVal>,
) -> Result<Seq<Seq<char>>, ActionError>
    decreases inputs.len(),
{
    if inputs.len() == 0 {
        Ok(Seq::empty())
    } else {
        match resolved_texts_spec(inputs.drop_last(), m) {
            Ok(p) => match resolve_text_spec(inputs.last(), m) {
                Ok(s) => Ok(p.push(s)),
                Err(e) => Err(e),
            },
            Err(e) => Err(e),
        }
    }
}

/// Once a prefix of the inputs fails to resolve, every longer prefix fails the
/// same way: the first failure decides.
pub proof fn lemma_resolved_texts_error_persists(
    inputs: Seq<ActionInput<String>>,
    m: Map<ActionIdentity, OutputVal>,
    e: ActionError,
    i: int,
    k: int,
)
    requires
        0 <= i <= k <= inputs.len(),
        resolved_texts_spec(inputs.take(i), m) == Err::<Seq<Seq<char>>, ActionError>(e),
    ensures
        resolved_texts_spec(inputs.take(k), m) == Err::<Seq<Seq<char>>, ActionError>(e),
    decreases k - i,
{
    if k > i {
        lemma_resolved_texts_error_persists(inputs, m, e, i, k - 1);
        assert(inputs.take(k).drop_last() =~= inputs.take(k - 1));
        assert(inputs.take(k).len() == k);
    }
}

/// A literal input resolves to its own value with no dependency on the output
/// store: the result is the literal itself, whatever the store holds.
pub proof fn lemma_static_resolution(
    v: String,
    m1: Map<ActionIdentity, OutputVal>,
    m2: Map<ActionIdentity, OutputVal>,
)
    ensures
        resolve_text_spec(ActionInput::Static(v), m1) == Ok::<Seq<char>, ActionError>(v@),
        resolve_text_spec(ActionInput::Static(v), m1) == resolve_text_spec(
            ActionInput::Static(v),
            m2,
        ),
{
}

/// A dynamic reference fails with `NoActionReturn` while its producer has
/// written nothing; once a text output is written, resolving it as text yields
/// exactly that text, and resolving it as an incompatible kind fails with
/// `TypeConversionMismatch`.
pub proof fn lemma_dynamic_resolution(
    id: ActionIdentity,
    m: Map<ActionIdentity, OutputVal>,
    t: Seq<char>,
)
    requires
        !m.contains_key(id),
    ensures
        resolve_text_spec(ActionInput::<String>::Dynamic(id), m) == Err::<Seq<char>, ActionError>(
            ActionError::NoActionReturn,
        ),
        resolve_text_spec(ActionInput::<String>::Dynamic(id), m.insert(id, OutputVal::Text(t)))
            == Ok::<Seq<char>, ActionError>(t),
        resolve_integer_spec(ActionInput::<u64>::Dynamic(id), m.insert(id, OutputVal::Text(t)))
            == Err::<u64, ActionError>(ActionError::TypeConversionMismatch),
{
}

/// Probe and run apply identical resolution semantics: any two resolutions of
/// one input against one store state give the same text, so a probe's decision
/// remains valid at run time as long as the store is unchanged.
pub proof fn lemma_resolution_consistent(
    input: ActionInput<String>,
    m: Map<ActionIdentity, OutputVal>,
    r1: Result<String, ActionError>,
    r2: Result<String, ActionError>,
)
    requires
        text_result_view(r1) == resolve_text_spec(input, m),
        text_result_view(r2) == resolve_text_spec(input, m),
    ensures
        text_result_view(r1) == text_result_view(r2),
{
}

/// Round trip through the store: writing an output of a given kind and at once
/// resolving the same identity at that kind yields the value written.
pub proof fn lemma_output_roundtrip(
    id: ActionIdentity,
    m: Map<ActionIdentity, OutputVal>,
    t: Seq<char>,
    n: u64,
    b: bool,
)
    ensures
        resolve_text_spec(ActionInput::<String>::Dynamic(id), m.insert(id, OutputVal::Text(t)))
            == Ok::<Seq<char>, ActionError>(t),
        resolve_integer_spec(ActionInput::<u64>::Dynamic(id), m.insert(id, OutputVal::Integer(n)))
            == Ok::<u64, ActionError>(n),
        resolve_flag_spec(ActionInput::<bool>::Dynamic(id), m.insert(id, OutputVal::Flag(b)))
            == Ok::<bool, ActionError>(b),
{
}

} // verus!
