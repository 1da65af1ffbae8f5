use vstd::prelude::*;

use crate::frame::Frame;

verus! {

/// The sink settings fixed when the actor is constructed: the four-byte
/// code of the video encoding, the frame rate in millihertz, the frame
/// dimensions, and whether frames carry colour.
#[derive(Clone, Copy, Debug, PartialEq, Eq, Structural)]
pub struct RecorderOption {
    pub fourcc: i32,
    pub fps_millihertz: u64,
    pub frame_width: u32,
    pub frame_height: u32,
    pub is_color: bool,
}

impl RecorderOption {
    pub fn new(
        fourcc: i32,
        fps_millihertz: u64,
        frame_width: u32,
        frame_height: u32,
        is_color: bool,
    ) -> (o: RecorderOption)
        ensures
            o == (RecorderOption { fourcc, fps_millihertz, frame_width, frame_height, is_color }),
    {
        RecorderOption { fourcc, fps_millihertz, frame_width, frame_height, is_color }
    }
}

/// One request to the recording actor. Every request draws exactly one
/// response; `Shutdown` is the last request the actor ever answers.
pub enum RecorderRequest {
    Start,
    Frame(Frame),
    Stop,
    Shutdown,
}

impl RecorderRequest {
    pub fn is_shutdown(&self) -> (b: bool)
        ensures
            b == (*self is Shutdown),
    {
        match self {
            RecorderRequest::Shutdown => true,
            _ => false,
        }
    }
}

/// The outcome the actor reports for one request.
#[derive(Clone, Copy, Debug, PartialEq, Eq, Structural)]
pub enum RecorderResponse {
    Success,
    Failure,
}

/// The sink operation a request calls for in the current state. The caller
/// that owns the real sink performs it and reports whether it went through;
/// the actor never asks for more than one operation per request.
#[derive(Clone, Copy, Debug, PartialEq, Eq, Structural)]
pub enum SinkCommand {
    Open,
    Write,
    Close,
    Nothing,
}

/// The state machine of the recording actor: the sole owner of the video
/// sink, answering one request at a time. `recording` and `sink_bound`
/// track the session and the sink handle separately, as the actor checks
/// both defensively, but they move together (see `wf`).
pub struct RecorderActor {
    pub options: RecorderOption,
    pub recording: bool,
    pub sink_bound: bool,
    pub terminated: bool,
}

impl RecorderActor {
    /// A session is active exactly when a sink handle is bound.
    pub open spec fn wf(&self) -> bool {
        self.recording == self.sink_bound
    }

    /// Which sink operation a request calls for: `Start` always opens a
    /// fresh sink (never closing a previous one), `Frame` writes and `Stop`
    /// closes only while a session with a bound sink is active, and
    /// `Shutdown` touches no sink.
    pub open spec fn spec_decide(self, req: RecorderRequest) -> SinkCommand {
        match req {
            RecorderRequest::Start => SinkCommand::Open,
            RecorderRequest::Frame(_) => if self.recording && self.sink_bound {
                SinkCommand::Write
            } else {
                SinkCommand::Nothing
            },
            RecorderRequest::Stop => if self.recording && self.sink_bound {
                SinkCommand::Close
            } else {
                SinkCommand::Nothing
            },
            RecorderRequest::Shutdown => SinkCommand::Nothing,
        }
    }

    /// The state after a request together with the response it draws,
    /// given whether the sink operation the request called for went
    /// through. `Start` always succeeds; `Frame` and `Stop` outside a
    /// session are protocol errors; a `Stop` inside a session always ends
    /// it, even when finalizing the sink failed, so that no half-closed
    /// session lingers; `Shutdown` always succeeds and is terminal.
    pub open spec fn spec_settle(self, req: RecorderRequest, io_ok: bool) -> (
        RecorderActor,
        RecorderResponse,
    ) {
        match req {
            RecorderRequest::Start => (
                RecorderActor { recording: true, sink_bound: true, ..self },
                RecorderResponse::Success,
            ),
            RecorderRequest::Frame(_) => if self.recording && self.sink_bound {
                (self, if io_ok {
                    RecorderResponse::Success
                } else {
                    RecorderResponse::Failure
                })
            } else {
                (self, RecorderResponse::Failure)
            },
            RecorderRequest::Stop => if self.recording && self.sink_bound {
                (
                    RecorderActor { recording: false, sink_bound: false, ..self },
                    if io_ok {
                        RecorderResponse::Success
                    } else {
                        RecorderResponse::Failure
                    },
                )
            } else {
                (self, RecorderResponse::Failure)
            },
            RecorderRequest::Shutdown => (
                RecorderActor { terminated: true, ..self },
                RecorderResponse::Success,
            ),
        }
    }

    pub fn new(options: RecorderOption) -> (a: RecorderActor)
        ensures
            a == (RecorderActor {
                options,
                recording: false,
                sink_bound: false,
                terminated: false,
            }),
            a.wf(),
    {
        RecorderActor { options, recording: false, sink_bound: false, terminated: false }
    }

    /// The sink operation to perform for this request in the current state.
    pub fn decide(&self, req: &RecorderRequest) -> (cmd: SinkCommand)
        requires
            !self.terminated,
        ensures
            cmd == self.spec_decide(*req),
    {
        match req {
            RecorderRequest::Start => SinkCommand::Open,
            RecorderRequest::Frame(_) => if self.recording && self.sink_bound {
                SinkCommand::Write
            } else {
                SinkCommand::Nothing
            },
            RecorderRequest::Stop => if self.recording && self.sink_bound {
                SinkCommand::Close
            } else {
                SinkCommand::Nothing
            },
            RecorderRequest::Shutdown => SinkCommand::Nothing,
        }
    }

    /// Applies the request to the state and returns the response, where
    /// `io_ok` says whether the sink operation that `decide` asked for
    /// went through.
    pub fn settle(&mut self, req: &RecorderRequest, io_ok: bool) -> (resp: RecorderResponse)
        requires
            !old(self).terminated,
        ensures
            (*final(self), resp) == old(self).spec_settle(*req, io_ok),
            old(self).wf() ==> final(self).wf(),
    {
        match req {
            RecorderRequest::Start => {
                self.recording = true;
                self.sink_bound = true;
                RecorderResponse::Success
            },
            RecorderRequest::Frame(_) => {
                if self.recording && self.sink_bound && io_ok {
                    RecorderResponse::Success
                } else {
                    RecorderResponse::Failure
                }
            },
            RecorderRequest::Stop => {
                if self.recording && self.sink_bound {
                    self.recording = false;
                    self.sink_bound = false;
                    if io_ok {
                        RecorderResponse::Success
                    } else {
                        RecorderResponse::Failure
                    }
                } else {
                    RecorderResponse::Failure
                }
            },
            RecorderRequest::Shutdown => {
                self.terminated = true;
                RecorderResponse::Success
            },
        }
    }

    /// The responses a mailbox of requests draws, in request order, given
    /// the outcome of each request's sink operation: one response per
    /// request up to and including the first `Shutdown`, after which the
    /// actor answers nothing more.
    pub open spec fn spec_run(
        self,
        reqs: Seq<RecorderRequest>,
        io_oks: Seq<bool>,
    ) -> Seq<RecorderResponse>
        decreases reqs.len(),
    {
        if reqs.len() == 0 {
            Seq::empty()
        } else {
            let (next, resp) = self.spec_settle(reqs[0], io_oks[0]);
            if reqs[0] is Shutdown {
                seq![resp]
            } else {
                seq![resp] + next.spec_run(reqs.skip(1), io_oks.skip(1))
            }
        }
    }

    /// The actor state after a mailbox of requests, stopping at the first
    /// `Shutdown`.
    pub open spec fn spec_run_state(
        self,
        reqs: Seq<RecorderRequest>,
        io_oks: Seq<bool>,
    ) -> RecorderActor
        decreases reqs.len(),
    {
        if reqs.len() == 0 {
            self
        } else {
            let (next, resp) = self.spec_settle(reqs[0], io_oks[0]);
            if reqs[0] is Shutdown {
                next
            } else {
                next.spec_run_state(reqs.skip(1), io_oks.skip(1))
            }
        }
    }

    /// Answers the requests one at a time, in order, stopping after the
    /// first `Shutdown`: the request loop of the actor, with the sink
    /// operations' outcomes supplied in `io_oks`.
    pub fn run(&mut self, requests: &Vec<RecorderRequest>, io_oks: &Vec<bool>) -> (responses: Vec<
        RecorderResponse,
    >)
        requires
            !old(self).terminated,
            io_oks@.len() == requests@.len(),
        ensures
            responses@ == old(self).spec_run(requests@, io_oks@),
            *final(self) == old(self).spec_run_state(requests@, io_oks@),
    {
        proof {
            assert(requests@.skip(0) =~= requests@);
            assert(io_oks@.skip(0) =~= io_oks@);
        }
        self.run_from(requests, io_oks, 0)
    }

    fn run_from(
        &mut self,
        requests: &Vec<RecorderRequest>,
        io_oks: &Vec<bool>,
        i: usize,
    ) -> (responses: Vec<RecorderResponse>)
        requires
            !old(self).terminated,
            io_oks@.len() == requests@.len(),
            i <= requests@.len(),
        ensures
            responses@ == old(self).spec_run(requests@.skip(i as int), io_oks@.skip(i as int)),
            *final(self) == old(self).spec_run_state(
                requests@.skip(i as int),
                io_oks@.skip(i as int),
            ),
        decreases requests@.len() - i,
    {
        let mut responses: Vec<RecorderResponse> = Vec::new();
        if i == requests.len() {
            proof {
                assert(requests@.skip(i as int) =~= Seq::<RecorderRequest>::empty());
                assert(io_oks@.skip(i as int) =~= Seq::<bool>::empty());
            }
            responses
        } else {
            let req = &requests[i];
            let resp = self.settle(req, io_oks[i]);
            responses.push(resp);
            proof {
                assert(requests@.skip(i as int)[0] == requests@[i as int]);
                assert(io_oks@.skip(i as int)[0] == io_oks@[i as int]);
            }
            if req.is_shutdown() {
                proof {
                    assert(responses@ =~= seq![resp]);
                }
                responses
            } else {
                let mut rest = self.run_from(requests, io_oks, i + 1);
                let ghost rest_view = rest@;
                responses.append(&mut rest);
                proof {
                    assert(requests@.skip(i as int).skip(1) =~= requests@.skip(i as int + 1));
                    assert(io_oks@.skip(i as int).skip(1) =~= io_oks@.skip(i as int + 1));
                    assert(responses@ =~= seq![resp] + rest_view);
                }
                responses
            }
        }
    }
}

/// State-machine exactness of the actor. From an idle state, `Stop` and
/// `Frame` are rejected and change nothing, while `Start` is accepted and
/// begins a session. From a recording state, `Start` is accepted again and
/// never asks for the prior sink to be closed; a `Frame` is accepted
/// exactly when a sink is bound and the write went through; and `Stop`
/// returns the actor to idle whatever the finalize outcome was, reporting
/// that outcome.
pub proof fn lemma_state_machine_exactness(a: RecorderActor, f: Frame, io_ok: bool)
    requires
        a.wf(),
    ensures
        !a.recording ==> a.spec_settle(RecorderRequest::Stop, io_ok) == (
            a,
            RecorderResponse::Failure,
        ),
        !a.recording ==> a.spec_settle(RecorderRequest::Frame(f), io_ok) == (
            a,
            RecorderResponse::Failure,
        ),
        a.spec_settle(RecorderRequest::Start, io_ok).1 == RecorderResponse::Success,
        a.spec_settle(RecorderRequest::Start, io_ok).0.recording,
        a.spec_decide(RecorderRequest::Start) != SinkCommand::Close,
        a.recording ==> (a.spec_settle(RecorderRequest::Frame(f), io_ok).1
            == RecorderResponse::Success <==> a.sink_bound && io_ok),
        a.recording ==> !a.spec_settle(RecorderRequest::Stop, io_ok).0.recording,
        a.recording ==> a.spec_settle(RecorderRequest::Stop, io_ok).1 == (if io_ok {
            RecorderResponse::Success
        } else {
            RecorderResponse::Failure
        }),
{
}

/// One response per request, in request order: a batch of requests with no
/// shutdown among them, followed by one `Shutdown`, draws exactly one
/// response for each request before the shutdown — each being the answer
/// of the state that the earlier requests left behind — and exactly one
/// more after them, the shutdown's own, which always succeeds.
pub proof fn lemma_fifo_responses(a: RecorderActor, reqs: Seq<RecorderRequest>, io_oks: Seq<bool>)
    requires
        forall|i: int| 0 <= i < reqs.len() ==> !(reqs[i] is Shutdown),
        io_oks.len() == reqs.len() + 1,
    ensures
        a.spec_run(reqs.push(RecorderRequest::Shutdown), io_oks).len() == reqs.len() + 1,
        forall|i: int| 0 <= i < reqs.len() ==> a.spec_run(
            reqs.push(RecorderRequest::Shutdown),
            io_oks,
        )[i] == a.spec_run_state(reqs.take(i), io_oks.take(i)).spec_settle(
            reqs[i],
            io_oks[i],
        ).1,
        a.spec_run(reqs.push(RecorderRequest::Shutdown), io_oks)[reqs.len() as int]
            == RecorderResponse::Success,
    decreases reqs.len(),
{
    let full = reqs.push(RecorderRequest::Shutdown);
    let rs = a.spec_run(full, io_oks);
    if reqs.len() == 0 {
        assert(full[0] is Shutdown);
    } else {
        assert(full[0] == reqs[0]);
        let (a1, r0) = a.spec_settle(reqs[0], io_oks[0]);
        assert(full.skip(1) =~= reqs.skip(1).push(RecorderRequest::Shutdown));
        assert(forall|i: int| 0 <= i < reqs.skip(1).len() ==> !(reqs.skip(1)[i] is Shutdown));
        lemma_fifo_responses(a1, reqs.skip(1), io_oks.skip(1));
        let tail = a1.spec_run(full.skip(1), io_oks.skip(1));
        assert(rs =~= seq![r0] + tail);
        assert forall|i: int| 0 <= i < reqs.len() implies rs[i] == a.spec_run_state(
            reqs.take(i),
            io_oks.take(i),
        ).spec_settle(reqs[i], io_oks[i]).1 by {
            if i == 0 {
                assert(reqs.take(0).len() == 0);
            } else {
                assert(rs[i] == tail[i - 1]);
                assert(reqs.skip(1)[i - 1] == reqs[i]);
                assert(io_oks.skip(1)[i - 1] == io_oks[i]);
                assert(reqs.skip(1).take(i - 1) =~= reqs.take(i).skip(1));
                assert(io_oks.skip(1).take(i - 1) =~= io_oks.take(i).skip(1));
                assert(reqs.take(i)[0] == reqs[0]);
                assert(io_oks.take(i)[0] == io_oks[0]);
                assert(a.spec_run_state(reqs.take(i), io_oks.take(i)) == a1.spec_run_state(
                    reqs.take(i).skip(1),
                    io_oks.take(i).skip(1),
                ));
            }
        }
        assert(rs[reqs.len() as int] == tail[reqs.len() - 1]);
    }
}

/// Shutdown is terminal: a mailbox whose first `Shutdown` stands at
/// position `k` draws exactly `k + 1` responses — nothing after the
/// shutdown is answered — and leaves the actor terminated, where it
/// accepts no further request.
pub proof fn lemma_shutdown_terminal(
    a: RecorderActor,
    reqs: Seq<RecorderRequest>,
    io_oks: Seq<bool>,
    k: int,
)
    requires
        0 <= k < reqs.len(),
        reqs[k] is Shutdown,
        forall|i: int| 0 <= i < k ==> !(reqs[i] is Shutdown),
    ensures
        a.spec_run(reqs, io_oks).len() == k + 1,
        a.spec_run_state(reqs, io_oks).terminated,
    decreases k,
{
    if k == 0 {
    } else {
        let (a1, r0) = a.spec_settle(reqs[0], io_oks[0]);
        assert(!(reqs[0] is Shutdown));
        assert(reqs.skip(1)[k - 1] is Shutdown);
        assert(forall|i: int| 0 <= i < k - 1 ==> !(reqs.skip(1)[i] is Shutdown));
        lemma_shutdown_terminal(a1, reqs.skip(1), io_oks.skip(1), k - 1);
    }
}

} // verus!
