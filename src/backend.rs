use vstd::prelude::*;

use crate::registry::{holds_backend, Attachment, BackendRegistry, RegisterError};
use crate::span::Span;

verus! {

/// clap's argument-parser builder, carried through `add_args` as an opaque value.
#[verifier::external_type_specification]
#[verifier::external_body]
pub struct ExApp<'a: 'b, 'b>(clap::App<'a, 'b>);

/// clap's parsed command line, handed to `register` as an opaque value.
#[verifier::external_type_specification]
#[verifier::external_body]
pub struct ExArgMatches<'a>(clap::ArgMatches<'a>);

/// Minimal interface for running a compatible backend with the mining engine.
///
/// Each backend type fixes its timing, may add its own command-line options,
/// and attaches itself to the engine's registry.
pub trait Backend: Send + Sync + 'static {
    /// The backend type's default number of midstates.
    spec fn spec_default_midstate_count() -> usize;

    /// The backend type's default hashrate interval.
    spec fn spec_default_hashrate_interval() -> Span;

    /// The backend type's job timeout.
    spec fn spec_job_timeout() -> Span;

    /// Number of midstates a job carries by default; never zero.
    fn default_midstate_count() -> (r: usize)
        ensures
            r == Self::spec_default_midstate_count(),
            r >= 1,
    ;

    /// Default interval over which statistics compute the hashrate; longer
    /// than zero.
    fn default_hashrate_interval() -> (r: Span)
        ensures
            r == Self::spec_default_hashrate_interval(),
            r.wf(),
            r.total_nanos() > 0,
    ;

    /// Longest time one job takes under normal circumstances; longer than zero.
    fn job_timeout() -> (r: Span)
        ensures
            r == Self::spec_job_timeout(),
            r.wf(),
            r.total_nanos() > 0,
    ;

    /// Adds the backend's options to the command line; by default none, and
    /// the parser comes back as it was handed in.
    fn add_args<'a, 'b>(app: clap::App<'a, 'b>) -> (r: clap::App<'a, 'b>)
        default_ensures
            r == app,
    {
        app
    }

    /// Attaches the backend to the engine, given the parsed command line.
    ///
    /// Success attaches exactly one backend, after those attached before; a
    /// failure leaves the registry as it was. Success is not promised, since
    /// registration may depend on the hardware answering.
    fn register(args: &clap::ArgMatches, backend_builder: &mut BackendRegistry)
        -> (r: Result<(), RegisterError>)
        requires
            old(backend_builder).wf(),
        ensures
            final(backend_builder).wf(),
            old(backend_builder)@.len() <= final(backend_builder)@.len(),
            forall|i: int| 0 <= i < old(backend_builder)@.len()
                ==> #[trigger] final(backend_builder)@[i] == old(backend_builder)@[i],
            r is Ok ==> final(backend_builder)@.len() == old(backend_builder)@.len() + 1,
            r is Ok ==> final(backend_builder)@.drop_last() == old(backend_builder)@,
            r is Err ==> final(backend_builder)@ == old(backend_builder)@,
    ;
}

/// The attachment of backend type `B` under identity `backend_id`: the type's
/// default midstate count and hashrate interval, and its job timeout.
pub open spec fn attachment_spec<B: Backend>(backend_id: u64) -> Attachment {
    Attachment {
        backend_id,
        midstate_count: B::spec_default_midstate_count(),
        hashrate_interval: B::spec_default_hashrate_interval(),
        job_timeout: B::spec_job_timeout(),
    }
}

/// The attachment of backend type `B` under identity `backend_id`, with the
/// type's default timing.
pub fn attachment_of<B: Backend>(backend_id: u64) -> (r: Attachment)
    ensures
        r == attachment_spec::<B>(backend_id),
        r.valid(),
{
    Attachment {
        backend_id,
        midstate_count: B::default_midstate_count(),
        hashrate_interval: B::default_hashrate_interval(),
        job_timeout: B::job_timeout(),
    }
}

/// Attaches backend type `B` under identity `backend_id` with its default
/// timing; refused only where that identity is attached already.
pub fn attach_backend<B: Backend>(backend_builder: &mut BackendRegistry, backend_id: u64)
    -> (r: Result<(), RegisterError>)
    requires
        old(backend_builder).wf(),
    ensures
        final(backend_builder).wf(),
        r is Err <==> holds_backend(old(backend_builder)@, backend_id),
        r is Err ==> r == Err::<(), RegisterError>(RegisterError::AlreadyAttached),
        r is Err ==> final(backend_builder)@ == old(backend_builder)@,
        r is Ok ==> final(backend_builder)@.len() == old(backend_builder)@.len() + 1,
        r is Ok ==> final(backend_builder)@.drop_last() == old(backend_builder)@,
        r is Ok ==> final(backend_builder)@.last() == attachment_spec::<B>(backend_id),
{
    let attachment = attachment_of::<B>(backend_id);
    let r = backend_builder.attach(attachment);
    proof {
        if r is Ok {
            assert(backend_builder@.drop_last() =~= old(backend_builder)@);
        }
    }
    r
}

} // verus!
