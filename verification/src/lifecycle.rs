use vstd::prelude::*;
use crate::err::Error;
use crate::params::DecodeParams;

verus! {

/// The engine calls a decode pipeline makes, in order. Thread configuration
/// and region restriction only happen when the configuration asks for them.
#[derive(Debug, Clone, Copy, PartialEq, Eq, Structural)]
pub enum EngineStep {
    CreateDecoder,
    SetupDecoder,
    ConfigureThreads,
    ReadHeader,
    SetRegion,
    Decode,
}

/// A handle-destroy action the pipeline tells its driver to perform.
#[derive(Debug, Clone, Copy, PartialEq, Eq, Structural)]
pub enum Teardown {
    DestroyStream,
    DestroyDecoder,
    DestroyImage,
}

/// Which engine call failed; each pipeline step aborts with its own kind.
#[derive(Debug, Clone, Copy, PartialEq, Eq, Structural)]
pub enum ErrorKind {
    DecoderInstantiation,
    DecoderSetup,
    ThreadConfiguration,
    HeaderRead,
    RegionSet,
    DecodeFailure,
}

/// Where a decode session stands: the engine call it is waiting on, or a
/// terminal state. `Complete` means the decode succeeded and every handle is
/// still alive for the pixel copy; `Done` and `Aborted` mean every acquired
/// handle has been released.
#[derive(Debug, Clone, Copy, PartialEq, Eq, Structural)]
pub enum Stage {
    CreateDecoder,
    SetupDecoder,
    ConfigureThreads,
    ReadHeader,
    SetRegion,
    Decode,
    Complete,
    Done,
    Aborted,
}

impl ErrorKind {
    /// The error each failed engine call surfaces to the caller.
    pub fn to_error(&self) -> (e: Error)
        ensures
            *self is DecoderInstantiation ==> (e matches Error::FfiError(m) && m@
                == "Codec instantiation failed."@),
            *self is DecoderSetup ==> (e matches Error::FfiError(m) && m@
                == "Setting up the decoder failed."@),
            *self is ThreadConfiguration ==> (e matches Error::FfiError(m) && m@
                == "Could not set specified threads."@),
            *self is HeaderRead ==> e == Error::ReadHeader,
            *self is RegionSet ==> (e matches Error::FfiError(m) && m@
                == "Setting up the decoding area failed."@),
            *self is DecodeFailure ==> (e matches Error::FfiError(m) && m@
                == "Failed to read image."@),
    {
        match *self {
            ErrorKind::DecoderInstantiation => Error::FfiError("Codec instantiation failed."),
            ErrorKind::DecoderSetup => Error::FfiError("Setting up the decoder failed."),
            ErrorKind::ThreadConfiguration => Error::FfiError("Could not set specified threads."),
            ErrorKind::HeaderRead => Error::ReadHeader,
            ErrorKind::RegionSet => Error::FfiError("Setting up the decoding area failed."),
            ErrorKind::DecodeFailure => Error::FfiError("Failed to read image."),
        }
    }
}

/// Whether a session at this stage is waiting on an engine call.
pub open spec fn spec_pending(st: Stage) -> bool {
    match st {
        Stage::CreateDecoder => true,
        Stage::SetupDecoder => true,
        Stage::ConfigureThreads => true,
        Stage::ReadHeader => true,
        Stage::SetRegion => true,
        Stage::Decode => true,
        Stage::Complete => false,
        Stage::Done => false,
        Stage::Aborted => false,
    }
}

/// Whether a decoder handle is alive at this stage: it appears once
/// `CreateDecoder` succeeded and lives until teardown.
pub open spec fn spec_decoder_held(st: Stage) -> bool {
    match st {
        Stage::SetupDecoder => true,
        Stage::ConfigureThreads => true,
        Stage::ReadHeader => true,
        Stage::SetRegion => true,
        Stage::Decode => true,
        Stage::Complete => true,
        _ => false,
    }
}

/// Whether an image handle is alive at this stage: it appears once
/// `ReadHeader` succeeded and lives until teardown.
pub open spec fn spec_image_held(st: Stage) -> bool {
    match st {
        Stage::SetRegion => true,
        Stage::Decode => true,
        Stage::Complete => true,
        _ => false,
    }
}

/// The stage after the engine reports the pending call's outcome. Steps the
/// configuration does not ask for are skipped; any failure aborts. Terminal
/// stages do not move.
pub open spec fn spec_next_stage(st: Stage, ok: bool, has_threads: bool, has_region: bool) -> Stage {
    if !spec_pending(st) {
        st
    } else if !ok {
        Stage::Aborted
    } else {
        match st {
            Stage::CreateDecoder => Stage::SetupDecoder,
            Stage::SetupDecoder => if has_threads {
                Stage::ConfigureThreads
            } else {
                Stage::ReadHeader
            },
            Stage::ConfigureThreads => Stage::ReadHeader,
            Stage::ReadHeader => if has_region {
                Stage::SetRegion
            } else {
                Stage::Decode
            },
            Stage::SetRegion => Stage::Decode,
            Stage::Decode => Stage::Complete,
            _ => st,
        }
    }
}

/// The handles to destroy when the pending call at this stage fails: every
/// handle alive at that stage, stream first, then decoder, then image.
pub open spec fn spec_abort_teardown(st: Stage) -> Seq<Teardown> {
    if !spec_pending(st) {
        Seq::empty()
    } else if spec_image_held(st) {
        seq![Teardown::DestroyStream, Teardown::DestroyDecoder, Teardown::DestroyImage]
    } else if spec_decoder_held(st) {
        seq![Teardown::DestroyStream, Teardown::DestroyDecoder]
    } else {
        seq![Teardown::DestroyStream]
    }
}

/// The error kind the pending call at this stage aborts with.
pub open spec fn spec_error_kind(st: Stage) -> ErrorKind {
    match st {
        Stage::CreateDecoder => ErrorKind::DecoderInstantiation,
        Stage::SetupDecoder => ErrorKind::DecoderSetup,
        Stage::ConfigureThreads => ErrorKind::ThreadConfiguration,
        Stage::ReadHeader => ErrorKind::HeaderRead,
        Stage::SetRegion => ErrorKind::RegionSet,
        _ => ErrorKind::DecodeFailure,
    }
}

/// What one reported outcome makes the session emit: nothing on success, the
/// full abort teardown on failure.
pub open spec fn spec_step_teardown(st: Stage, ok: bool) -> Seq<Teardown> {
    if ok {
        Seq::empty()
    } else {
        spec_abort_teardown(st)
    }
}

/// The stage a session reaches after a run of reported outcomes.
pub open spec fn spec_run_stage(st: Stage, has_threads: bool, has_region: bool, evs: Seq<
    bool,
>) -> Stage
    decreases evs.len(),
{
    if evs.len() == 0 {
        st
    } else {
        spec_run_stage(
            spec_next_stage(st, evs[0], has_threads, has_region),
            has_threads,
            has_region,
            evs.drop_first(),
        )
    }
}

/// Every teardown action a session emits over a run of reported outcomes,
/// in order.
pub open spec fn spec_run_teardowns(st: Stage, has_threads: bool, has_region: bool, evs: Seq<
    bool,
>) -> Seq<Teardown>
    decreases evs.len(),
{
    if evs.len() == 0 {
        Seq::empty()
    } else {
        spec_step_teardown(st, evs[0]) + spec_run_teardowns(
            spec_next_stage(st, evs[0], has_threads, has_region),
            has_threads,
            has_region,
            evs.drop_first(),
        )
    }
}

/// How often one teardown action occurs in a sequence of them.
pub open spec fn spec_count_td(s: Seq<Teardown>, t: Teardown) -> nat
    decreases s.len(),
{
    if s.len() == 0 {
        0
    } else {
        (if s[0] == t {
            1nat
        } else {
            0nat
        }) + spec_count_td(s.drop_first(), t)
    }
}

proof fn lemma_count_td_append(a: Seq<Teardown>, b: Seq<Teardown>, t: Teardown)
    ensures
        spec_count_td(a + b, t) == spec_count_td(a, t) + spec_count_td(b, t),
    decreases a.len(),
{
    if a.len() == 0 {
        assert(a + b =~= b);
    } else {
        assert((a + b).drop_first() =~= a.drop_first() + b);
        lemma_count_td_append(a.drop_first(), b, t);
    }
}

/// On a failure, the abort teardown destroys the stream exactly once, the
/// decoder exactly once if one is alive, the image exactly once if one is
/// alive, and nothing else: no alive handle is skipped, none is destroyed
/// twice, and the order is stream, then decoder, then image.
pub proof fn lemma_abort_teardown_complete(st: Stage)
    requires
        spec_pending(st),
    ensures
        spec_count_td(spec_abort_teardown(st), Teardown::DestroyStream) == 1,
        spec_count_td(spec_abort_teardown(st), Teardown::DestroyDecoder) == if spec_decoder_held(
            st,
        ) {
            1nat
        } else {
            0nat
        },
        spec_count_td(spec_abort_teardown(st), Teardown::DestroyImage) == if spec_image_held(st) {
            1nat
        } else {
            0nat
        },
        spec_abort_teardown(st)[0] == Teardown::DestroyStream,
        spec_decoder_held(st) ==> spec_abort_teardown(st)[1] == Teardown::DestroyDecoder,
        spec_image_held(st) ==> spec_abort_teardown(st)[2] == Teardown::DestroyImage,
{
    let stream = Teardown::DestroyStream;
    let decoder = Teardown::DestroyDecoder;
    let image = Teardown::DestroyImage;
    if spec_image_held(st) {
        lemma_count_td_three(stream, decoder, image, stream);
        lemma_count_td_three(stream, decoder, image, decoder);
        lemma_count_td_three(stream, decoder, image, image);
    } else if spec_decoder_held(st) {
        lemma_count_td_two(stream, decoder, stream);
        lemma_count_td_two(stream, decoder, decoder);
        lemma_count_td_two(stream, decoder, image);
    } else {
        lemma_count_td_one(stream, stream);
        lemma_count_td_one(stream, decoder);
        lemma_count_td_one(stream, image);
    }
}

proof fn lemma_count_td_one(a: Teardown, t: Teardown)
    ensures
        spec_count_td(seq![a], t) == if a == t {
            1nat
        } else {
            0nat
        },
{
    let s = seq![a];
    assert(s.drop_first() =~= Seq::<Teardown>::empty());
    assert(spec_count_td(s.drop_first(), t) == 0);
}

proof fn lemma_count_td_two(a: Teardown, b: Teardown, t: Teardown)
    ensures
        spec_count_td(seq![a, b], t) == (if a == t {
            1nat
        } else {
            0nat
        }) + (if b == t {
            1nat
        } else {
            0nat
        }),
{
    let s = seq![a, b];
    assert(s.drop_first() =~= seq![b]);
    lemma_count_td_one(b, t);
}

proof fn lemma_count_td_three(a: Teardown, b: Teardown, c: Teardown, t: Teardown)
    ensures
        spec_count_td(seq![a, b, c], t) == (if a == t {
            1nat
        } else {
            0nat
        }) + (if b == t {
            1nat
        } else {
            0nat
        }) + (if c == t {
            1nat
        } else {
            0nat
        }),
{
    let s = seq![a, b, c];
    assert(s.drop_first() =~= seq![b, c]);
    lemma_count_td_two(b, c, t);
}

/// An aborted session emits no further teardown action, however many more
/// outcomes are reported.
pub proof fn lemma_aborted_session_emits_nothing(
    has_threads: bool,
    has_region: bool,
    evs: Seq<bool>,
)
    ensures
        spec_run_teardowns(Stage::Aborted, has_threads, has_region, evs) =~= Seq::<
            Teardown,
        >::empty(),
    decreases evs.len(),
{
    if evs.len() > 0 {
        lemma_aborted_session_emits_nothing(has_threads, has_region, evs.drop_first());
        assert(spec_step_teardown(Stage::Aborted, evs[0]) =~= Seq::<Teardown>::empty());
        assert(Seq::<Teardown>::empty() + Seq::<Teardown>::empty() =~= Seq::<Teardown>::empty());
    }
}

/// Over any whole run, from any starting stage, a session never tells its
/// driver to destroy the same handle twice.
pub proof fn lemma_session_destroys_at_most_once(
    st: Stage,
    has_threads: bool,
    has_region: bool,
    evs: Seq<bool>,
    t: Teardown,
)
    ensures
        spec_count_td(spec_run_teardowns(st, has_threads, has_region, evs), t) <= 1,
    decreases evs.len(),
{
    if evs.len() > 0 {
        let step = spec_step_teardown(st, evs[0]);
        let next = spec_next_stage(st, evs[0], has_threads, has_region);
        let rest = spec_run_teardowns(next, has_threads, has_region, evs.drop_first());
        lemma_count_td_append(step, rest, t);
        if evs[0] || !spec_pending(st) {
            assert(step =~= Seq::<Teardown>::empty());
            lemma_session_destroys_at_most_once(next, has_threads, has_region, evs.drop_first(), t);
        } else {
            lemma_abort_teardown_complete(st);
            lemma_aborted_session_emits_nothing(has_threads, has_region, evs.drop_first());
            assert(spec_count_td(rest, t) == 0) by {
                assert(rest =~= Seq::<Teardown>::empty());
            }
        }
    }
}

/// A stage without a pending engine call never moves again.
proof fn lemma_terminal_stage_stays(st: Stage, has_threads: bool, has_region: bool, evs: Seq<bool>)
    requires
        !spec_pending(st),
    ensures
        spec_run_stage(st, has_threads, has_region, evs) == st,
    decreases evs.len(),
{
    if evs.len() > 0 {
        lemma_terminal_stage_stays(st, has_threads, has_region, evs.drop_first());
    }
}

/// A failed run destroys the stream exactly once: the one handle that exists
/// from the start is never leaked and never double-freed.
pub proof fn lemma_aborted_run_destroys_stream_once(
    st: Stage,
    has_threads: bool,
    has_region: bool,
    evs: Seq<bool>,
)
    requires
        spec_pending(st),
        spec_run_stage(st, has_threads, has_region, evs) is Aborted,
    ensures
        spec_count_td(
            spec_run_teardowns(st, has_threads, has_region, evs),
            Teardown::DestroyStream,
        ) == 1,
    decreases evs.len(),
{
    if evs.len() == 0 {
        assert(false);
    } else {
        let step = spec_step_teardown(st, evs[0]);
        let next = spec_next_stage(st, evs[0], has_threads, has_region);
        let rest = spec_run_teardowns(next, has_threads, has_region, evs.drop_first());
        lemma_count_td_append(step, rest, Teardown::DestroyStream);
        if evs[0] {
            assert(step =~= Seq::<Teardown>::empty());
            if spec_pending(next) {
                lemma_aborted_run_destroys_stream_once(
                    next,
                    has_threads,
                    has_region,
                    evs.drop_first(),
                );
            } else {
                lemma_terminal_stage_stays(next, has_threads, has_region, evs.drop_first());
                assert(false);
            }
        } else {
            lemma_abort_teardown_complete(st);
            lemma_aborted_session_emits_nothing(has_threads, has_region, evs.drop_first());
            assert(spec_count_td(rest, Teardown::DestroyStream) == 0) by {
                assert(rest =~= Seq::<Teardown>::empty());
            }
        }
    }
}

/// What one reported outcome hands back to the driver: the teardown actions
/// to perform now, in order, and the error to surface if the step failed.
pub struct StepOutcome {
    pub teardown: Vec<Teardown>,
    pub error: Option<ErrorKind>,
}

/// One decode session's lifecycle manager. It owns the ordering decisions:
/// which engine call comes next, and which handles must be destroyed, in
/// which order, when a call fails or the session finishes.
#[derive(Debug, Clone)]
pub struct Session {
    pub stage: Stage,
    pub has_threads: bool,
    pub has_region: bool,
}

impl Session {
    /// A fresh session for one decode call: the stream exists, the decoder
    /// is about to be created, and the optional steps follow the
    /// configuration.
    pub fn new(params: &DecodeParams) -> (r: Session)
        ensures
            r.stage == Stage::CreateDecoder,
            r.has_threads == (params.num_threads is Some),
            r.has_region == (params.decoding_area is Some),
    {
        Session {
            stage: Stage::CreateDecoder,
            has_threads: params.num_threads.is_some(),
            has_region: params.decoding_area.is_some(),
        }
    }

    /// The engine call the session is waiting on, if any.
    pub fn next_step(&self) -> (r: Option<EngineStep>)
        ensures
            r is Some <==> spec_pending(self.stage),
            self.stage is CreateDecoder ==> r == Some(EngineStep::CreateDecoder),
            self.stage is SetupDecoder ==> r == Some(EngineStep::SetupDecoder),
            self.stage is ConfigureThreads ==> r == Some(EngineStep::ConfigureThreads),
            self.stage is ReadHeader ==> r == Some(EngineStep::ReadHeader),
            self.stage is SetRegion ==> r == Some(EngineStep::SetRegion),
            self.stage is Decode ==> r == Some(EngineStep::Decode),
    {
        match self.stage {
            Stage::CreateDecoder => Some(EngineStep::CreateDecoder),
            Stage::SetupDecoder => Some(EngineStep::SetupDecoder),
            Stage::ConfigureThreads => Some(EngineStep::ConfigureThreads),
            Stage::ReadHeader => Some(EngineStep::ReadHeader),
            Stage::SetRegion => Some(EngineStep::SetRegion),
            Stage::Decode => Some(EngineStep::Decode),
            Stage::Complete => None,
            Stage::Done => None,
            Stage::Aborted => None,
        }
    }

    /// Reports the outcome of the pending engine call. On success the
    /// session moves to the next step the configuration asks for and nothing
    /// is destroyed; on failure it aborts, surfaces the step's error kind,
    /// and orders every alive handle destroyed, stream first, then decoder,
    /// then image.
    pub fn advance(&mut self, ok: bool) -> (r: StepOutcome)
        requires
            spec_pending(old(self).stage),
        ensures
            final(self).has_threads == old(self).has_threads,
            final(self).has_region == old(self).has_region,
            final(self).stage == spec_next_stage(
                old(self).stage,
                ok,
                old(self).has_threads,
                old(self).has_region,
            ),
            r.teardown@ == spec_step_teardown(old(self).stage, ok),
            r.error == if ok {
                Option::<ErrorKind>::None
            } else {
                Some(spec_error_kind(old(self).stage))
            },
    {
        if ok {
            self.stage = match self.stage {
                Stage::CreateDecoder => Stage::SetupDecoder,
                Stage::SetupDecoder => if self.has_threads {
                    Stage::ConfigureThreads
                } else {
                    Stage::ReadHeader
                },
                Stage::ConfigureThreads => Stage::ReadHeader,
                Stage::ReadHeader => if self.has_region {
                    Stage::SetRegion
                } else {
                    Stage::Decode
                },
                Stage::SetRegion => Stage::Decode,
                Stage::Decode => Stage::Complete,
                _ => self.stage,
            };
            let r = StepOutcome { teardown: Vec::new(), error: None };
            proof {
                assert(r.teardown@ =~= spec_step_teardown(old(self).stage, true));
            }
            r
        } else {
            let kind: ErrorKind = match self.stage {
                Stage::CreateDecoder => ErrorKind::DecoderInstantiation,
                Stage::SetupDecoder => ErrorKind::DecoderSetup,
                Stage::ConfigureThreads => ErrorKind::ThreadConfiguration,
                Stage::ReadHeader => ErrorKind::HeaderRead,
                Stage::SetRegion => ErrorKind::RegionSet,
                _ => ErrorKind::DecodeFailure,
            };
            let mut teardown: Vec<Teardown> = Vec::new();
            teardown.push(Teardown::DestroyStream);
            match self.stage {
                Stage::CreateDecoder => {},
                Stage::SetRegion | Stage::Decode => {
                    teardown.push(Teardown::DestroyDecoder);
                    teardown.push(Teardown::DestroyImage);
                },
                _ => {
                    teardown.push(Teardown::DestroyDecoder);
                },
            }
            proof {
                assert(teardown@ =~= spec_abort_teardown(old(self).stage));
            }
            self.stage = Stage::Aborted;
            StepOutcome { teardown, error: Some(kind) }
        }
    }

    /// Ends a completed session once the pixel data has been copied out:
    /// every handle is destroyed exactly once, stream first, then decoder,
    /// then image.
    pub fn finish(&mut self) -> (r: Vec<Teardown>)
        requires
            old(self).stage is Complete,
        ensures
            final(self).stage == Stage::Done,
            final(self).has_threads == old(self).has_threads,
            final(self).has_region == old(self).has_region,
            r@ =~= seq![Teardown::DestroyStream, Teardown::DestroyDecoder, Teardown::DestroyImage],
    {
        self.stage = Stage::Done;
        let mut r: Vec<Teardown> = Vec::new();
        r.push(Teardown::DestroyStream);
        r.push(Teardown::DestroyDecoder);
        r.push(Teardown::DestroyImage);
        proof {
            assert(r@ =~= seq![
                Teardown::DestroyStream,
                Teardown::DestroyDecoder,
                Teardown::DestroyImage,
            ]);
        }
        r
    }
}

} // verus!
