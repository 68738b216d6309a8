//! The session client: the outbound queue and the shutdown protocol.
//!
//! The client holds no I/O of its own. Whoever runs the session takes each
//! outbound line from `next_outbound` and writes it, and reports what it saw of
//! the process to `exit_action`.

use vstd::prelude::*;
use crate::config::CodexConfig;
use crate::protocol::{
    approval_op, decision_from, decision_of, encode_submission, envelope, frame_line, framed, interrupt_op,
    lemma_single_item, op_json, shutdown_op, user_input_op, InputItem, Op, Submission,
};

verus! {

/// Milliseconds the process is given to exit on its own after shutdown.
pub const GRACE_PERIOD_MS: u64 = 100;

/// The length of a hyphenated identifier.
pub const SUBMISSION_ID_LEN: usize = 36;

/// Relies on `uuid::Uuid::new_v4` and its `Display`: a random identifier,
/// written in the hyphenated form of 36 characters.
#[verifier::external_body]
fn fresh_id() -> (r: String)
    ensures
        r@.len() == SUBMISSION_ID_LEN,
{
    uuid::Uuid::new_v4().to_string()
}

/// The bytes of a run of lines as the writer puts them on the input stream.
pub open spec fn outbound_stream(lines: Seq<Seq<char>>) -> Seq<char>
    decreases lines.len(),
{
    if lines.len() == 0 {
        Seq::empty()
    } else {
        outbound_stream(lines.drop_last()) + framed(lines.last())
    }
}

/// What the runner saw when it polled the process after the grace period.
#[derive(Clone, Copy, Debug, PartialEq, Eq, Structural)]
pub enum ExitObservation {
    Exited,
    StillRunning,
    PollFailed,
}

/// What the runner does next with the process.
#[derive(Clone, Copy, Debug, PartialEq, Eq, Structural)]
pub enum ExitAction {
    /// The process has exited; its status is recorded and nothing is left.
    Reaped,
    /// The process is forcibly terminated and waited for.
    Kill,
}

/// The action that follows an observation: only an observed exit spares the kill.
pub open spec fn exit_action_of(obs: ExitObservation) -> ExitAction {
    if obs == ExitObservation::Exited {
        ExitAction::Reaped
    } else {
        ExitAction::Kill
    }
}

/// One session's client. It owns the process for the session's lifetime and
/// the outbound queue, a FIFO of encoded lines. The ghost logs record every
/// line enqueued, every line the writer took, and the text handed to it.
pub struct CodexClient {
    session_id: String,
    config: CodexConfig,
    process_held: bool,
    queue_open: bool,
    pending: Vec<String>,
    sent: Ghost<Seq<Seq<char>>>,
    taken: Ghost<Seq<Seq<char>>>,
    stream: Ghost<Seq<char>>,
}

impl CodexClient {
    /// Every line enqueued so far, in order.
    pub closed spec fn sent_log(&self) -> Seq<Seq<char>> {
        self.sent@
    }

    /// The lines the writer has taken, in order.
    pub closed spec fn taken_log(&self) -> Seq<Seq<char>> {
        self.taken@
    }

    /// The lines enqueued and not yet taken, oldest first.
    pub closed spec fn pending_lines(&self) -> Seq<Seq<char>> {
        self.pending@.map_values(|l: String| l@)
    }

    /// Everything the writer has been handed to write, in order.
    pub closed spec fn written(&self) -> Seq<char> {
        self.stream@
    }

    pub closed spec fn queue_is_open(&self) -> bool {
        self.queue_open
    }

    pub closed spec fn holds_process(&self) -> bool {
        self.process_held
    }

    pub closed spec fn config_view(&self) -> CodexConfig {
        self.config
    }

    pub closed spec fn session_id_view(&self) -> Seq<char> {
        self.session_id@
    }

    pub open spec fn active(&self) -> bool {
        self.holds_process() && self.queue_is_open()
    }

    /// The queue keeps every enqueued line, in order, split between those taken
    /// and those still pending, and the writer has been handed exactly the
    /// framed lines it took.
    pub closed spec fn wf(&self) -> bool {
        &&& self.sent@ == self.taken@ + self.pending_lines()
        &&& self.stream@ == outbound_stream(self.taken@)
    }

    /// A client that owns a freshly spawned process and an open queue.
    pub fn new(session_id: String, config: CodexConfig) -> (r: Self)
        ensures
            r.wf(),
            r.active(),
            r.session_id_view() == session_id@,
            r.config_view() == config,
            r.sent_log() == Seq::<Seq<char>>::empty(),
            r.taken_log() == Seq::<Seq<char>>::empty(),
            r.pending_lines() == Seq::<Seq<char>>::empty(),
            r.written() == Seq::<char>::empty(),
    {
        let r = CodexClient {
            session_id,
            config,
            process_held: true,
            queue_open: true,
            pending: Vec::new(),
            sent: Ghost(Seq::empty()),
            taken: Ghost(Seq::empty()),
            stream: Ghost(Seq::empty()),
        };
        proof {
            assert(r.pending_lines() =~= Seq::<Seq<char>>::empty());
        }
        r
    }

    pub fn session_id(&self) -> (r: &String)
        ensures
            r@ == self.session_id_view(),
    {
        &self.session_id
    }

    pub fn config(&self) -> (r: &CodexConfig)
        ensures
            *r == self.config_view(),
    {
        &self.config
    }

    /// True while both the process and the outbound queue are held.
    pub fn is_active(&self) -> (r: bool)
        ensures
            r == self.active(),
    {
        self.process_held && self.queue_open
    }

    /// Enqueues a line while the queue is open; once closed it is dropped.
    fn enqueue(&mut self, line: String)
        requires
            old(self).wf(),
        ensures
            final(self).wf(),
            final(self).sent_log() == (if old(self).queue_is_open() {
                old(self).sent_log().push(line@)
            } else {
                old(self).sent_log()
            }),
            final(self).taken_log() == old(self).taken_log(),
            final(self).written() == old(self).written(),
            final(self).queue_is_open() == old(self).queue_is_open(),
            final(self).holds_process() == old(self).holds_process(),
            final(self).session_id_view() == old(self).session_id_view(),
    {
        if self.queue_open {
            let ghost before = self.pending_lines();
            let ghost l = line@;
            self.pending.push(line);
            proof {
                assert(self.pending_lines() =~= before.push(l));
                self.sent@ = self.sent@.push(l);
                assert(self.sent@ =~= self.taken@ + self.pending_lines());
            }
        }
    }

    /// Wraps an operation in a submission under a fresh identifier, and
    /// enqueues its line.
    fn send_op(&mut self, op: Op) -> (id: String)
        requires
            old(self).wf(),
        ensures
            final(self).wf(),
            id@.len() == SUBMISSION_ID_LEN,
            final(self).sent_log() == (if old(self).queue_is_open() {
                old(self).sent_log().push(envelope(id@, op_json(op)))
            } else {
                old(self).sent_log()
            }),
            final(self).taken_log() == old(self).taken_log(),
            final(self).written() == old(self).written(),
            final(self).queue_is_open() == old(self).queue_is_open(),
            final(self).holds_process() == old(self).holds_process(),
            final(self).session_id_view() == old(self).session_id_view(),
    {
        let id = fresh_id();
        let sub = Submission { id: id.clone(), op };
        let line = encode_submission(&sub);
        self.enqueue(line);
        id
    }

    /// Sends one user turn holding `message` as its single text item.
    /// Returns the identifier of the submission.
    pub fn send_user_input(&mut self, message: String) -> (id: String)
        requires
            old(self).wf(),
        ensures
            final(self).wf(),
            id@.len() == SUBMISSION_ID_LEN,
            final(self).sent_log() == (if old(self).queue_is_open() {
                old(self).sent_log().push(envelope(id@, user_input_op(message@)))
            } else {
                old(self).sent_log()
            }),
            final(self).taken_log() == old(self).taken_log(),
            final(self).written() == old(self).written(),
            final(self).queue_is_open() == old(self).queue_is_open(),
            final(self).holds_process() == old(self).holds_process(),
    {
        let ghost text = message@;
        let item = InputItem::Text { text: message };
        proof {
            lemma_single_item(item);
        }
        let items = vec![item];
        proof {
            assert(items@ =~= seq![item]);
        }
        self.send_op(Op::UserInput { items })
    }

    fn send_approval(&mut self, exec: bool, approval_id: String, approved: bool) -> (id: String)
        requires
            old(self).wf(),
        ensures
            final(self).wf(),
            id@.len() == SUBMISSION_ID_LEN,
            final(self).sent_log() == (if old(self).queue_is_open() {
                old(self).sent_log().push(
                    envelope(
                        id@,
                        approval_op(
                            if exec {
                                "exec_approval"@
                            } else {
                                "patch_approval"@
                            },
                            approval_id@,
                            decision_of(approved),
                        ),
                    ),
                )
            } else {
                old(self).sent_log()
            }),
            final(self).taken_log() == old(self).taken_log(),
            final(self).written() == old(self).written(),
            final(self).queue_is_open() == old(self).queue_is_open(),
            final(self).holds_process() == old(self).holds_process(),
    {
        let decision = decision_from(approved);
        if exec {
            self.send_op(Op::ExecApproval { id: approval_id, decision })
        } else {
            self.send_op(Op::PatchApproval { id: approval_id, decision })
        }
    }

    /// Answers an execution approval request: allow when `approved`, else deny.
    pub fn send_exec_approval(&mut self, approval_id: String, approved: bool) -> (id: String)
        requires
            old(self).wf(),
        ensures
            final(self).wf(),
            id@.len() == SUBMISSION_ID_LEN,
            final(self).sent_log() == (if old(self).queue_is_open() {
                old(self).sent_log().push(
                    envelope(id@, approval_op("exec_approval"@, approval_id@, decision_of(approved))),
                )
            } else {
                old(self).sent_log()
            }),
            final(self).taken_log() == old(self).taken_log(),
            final(self).written() == old(self).written(),
            final(self).queue_is_open() == old(self).queue_is_open(),
            final(self).holds_process() == old(self).holds_process(),
    {
        self.send_approval(true, approval_id, approved)
    }

    /// Answers a patch approval request: allow when `approved`, else deny.
    pub fn send_patch_approval(&mut self, approval_id: String, approved: bool) -> (id: String)
        requires
            old(self).wf(),
        ensures
            final(self).wf(),
            id@.len() == SUBMISSION_ID_LEN,
            final(self).sent_log() == (if old(self).queue_is_open() {
                old(self).sent_log().push(
                    envelope(id@, approval_op("patch_approval"@, approval_id@, decision_of(approved))),
                )
            } else {
                old(self).sent_log()
            }),
            final(self).taken_log() == old(self).taken_log(),
            final(self).written() == old(self).written(),
            final(self).queue_is_open() == old(self).queue_is_open(),
            final(self).holds_process() == old(self).holds_process(),
    {
        self.send_approval(false, approval_id, approved)
    }

    /// Asks the process to cancel its current work; the session stays open.
    pub fn interrupt(&mut self) -> (id: String)
        requires
            old(self).wf(),
        ensures
            final(self).wf(),
            id@.len() == SUBMISSION_ID_LEN,
            final(self).sent_log() == (if old(self).queue_is_open() {
                old(self).sent_log().push(envelope(id@, interrupt_op()))
            } else {
                old(self).sent_log()
            }),
            final(self).taken_log() == old(self).taken_log(),
            final(self).written() == old(self).written(),
            final(self).queue_is_open() == old(self).queue_is_open(),
            final(self).holds_process() == old(self).holds_process(),
    {
        self.send_op(Op::Interrupt)
    }

    /// Hands the writer the oldest pending line, framed with its newline.
    /// `None` when nothing is pending; the writer ends once the queue is also
    /// closed.
    pub fn next_outbound(&mut self) -> (r: Option<String>)
        requires
            old(self).wf(),
        ensures
            final(self).wf(),
            final(self).sent_log() == old(self).sent_log(),
            final(self).queue_is_open() == old(self).queue_is_open(),
            final(self).holds_process() == old(self).holds_process(),
            old(self).pending_lines().len() == 0 ==> r is None && final(self).taken_log()
                == old(self).taken_log(),
            old(self).pending_lines().len() > 0 ==> r is Some && r->Some_0@ == framed(
                old(self).pending_lines()[0],
            ) && final(self).taken_log() == old(self).taken_log().push(
                old(self).pending_lines()[0],
            ) && final(self).pending_lines() == old(self).pending_lines().drop_first(),
            final(self).written() == outbound_stream(final(self).taken_log()),
    {
        if self.pending.len() == 0 {
            return None;
        }
        let ghost before = self.pending_lines();
        let line = self.pending.remove(0);
        proof {
            assert(self.pending_lines() =~= before.drop_first());
            let t = self.taken@.push(line@);
            assert(t.drop_last() =~= self.taken@);
            self.stream@ = self.stream@ + framed(line@);
            self.taken@ = t;
            assert(self.sent@ =~= self.taken@ + self.pending_lines());
        }
        Some(frame_line(&line))
    }

    /// Records that writing to the process failed: the writer has ended, so
    /// the queue is closed and the session is no longer active. The process is
    /// still held for the shutdown protocol.
    pub fn mark_write_failed(&mut self)
        requires
            old(self).wf(),
        ensures
            final(self).wf(),
            !final(self).active(),
            !final(self).queue_is_open(),
            final(self).holds_process() == old(self).holds_process(),
            final(self).sent_log() == old(self).sent_log(),
            final(self).taken_log() == old(self).taken_log(),
            final(self).pending_lines() == old(self).pending_lines(),
            final(self).written() == old(self).written(),
    {
        self.queue_open = false;
    }

    /// Whether the writer has nothing left to do.
    pub fn writer_done(&self) -> (r: bool)
        ensures
            r == (!self.queue_is_open() && self.pending_lines().len() == 0),
    {
        !self.queue_open && self.pending.len() == 0
    }

    /// Starts the shutdown protocol: enqueues a shutdown command, closes the
    /// queue and gives up the process. Returns whether a process was held;
    /// the runner then waits `GRACE_PERIOD_MS`, polls it and follows
    /// `exit_action`. A second call finds nothing to act on.
    pub fn close_session(&mut self) -> (r: bool)
        requires
            old(self).wf(),
        ensures
            final(self).wf(),
            r == old(self).holds_process(),
            !final(self).active(),
            !final(self).queue_is_open(),
            !final(self).holds_process(),
            old(self).queue_is_open() ==> exists|id: Seq<char>|
                id.len() == SUBMISSION_ID_LEN && #[trigger] final(self).sent_log() == old(
                    self,
                ).sent_log().push(envelope(id, shutdown_op())),
            !old(self).queue_is_open() ==> final(self).sent_log() == old(self).sent_log(),
            final(self).taken_log() == old(self).taken_log(),
            final(self).written() == old(self).written(),
    {
        let id = self.send_op(Op::Shutdown);
        self.queue_open = false;
        let held = self.process_held;
        self.process_held = false;
        proof {
            if old(self).queue_is_open() {
                assert(self.sent@ == old(self).sent_log().push(envelope(id@, shutdown_op())));
            }
        }
        held
    }

    /// The same protocol as `close_session`.
    pub fn shutdown(&mut self) -> (r: bool)
        requires
            old(self).wf(),
        ensures
            final(self).wf(),
            r == old(self).holds_process(),
            !final(self).active(),
            !final(self).queue_is_open(),
            !final(self).holds_process(),
            final(self).taken_log() == old(self).taken_log(),
            final(self).written() == old(self).written(),
            old(self).queue_is_open() ==> exists|id: Seq<char>|
                id.len() == SUBMISSION_ID_LEN && #[trigger] final(self).sent_log() == old(
                    self,
                ).sent_log().push(envelope(id, shutdown_op())),
            !old(self).queue_is_open() ==> final(self).sent_log() == old(self).sent_log(),
    {
        self.close_session()
    }
}

/// What to do with the process after the grace period.
pub fn exit_action(obs: ExitObservation) -> (r: ExitAction)
    ensures
        r == exit_action_of(obs),
{
    match obs {
        ExitObservation::Exited => ExitAction::Reaped,
        _ => ExitAction::Kill,
    }
}

/// The stream of a run of lines begins with the stream of each of its prefixes.
pub proof fn lemma_outbound_stream_concat(a: Seq<Seq<char>>, b: Seq<Seq<char>>)
    ensures
        outbound_stream(a + b) == outbound_stream(a) + outbound_stream(b),
    decreases b.len(),
{
    if b.len() == 0 {
        assert(a + b =~= a);
        assert(outbound_stream(a) + outbound_stream(b) =~= outbound_stream(a));
    } else {
        assert((a + b).drop_last() =~= a + b.drop_last());
        lemma_outbound_stream_concat(a, b.drop_last());
        assert(outbound_stream(a) + outbound_stream(b) =~= (outbound_stream(a) + outbound_stream(
            b.drop_last(),
        )) + framed(b.last()));
    }
}

/// Outbound order is kept: the writer has been handed exactly the framed lines
/// it took, those are the oldest of the lines enqueued, and once the queue has
/// drained the bytes written are every enqueued line with its newline, in the
/// order the sends were made.
pub proof fn lemma_outbound_order(c: &CodexClient)
    requires
        c.wf(),
    ensures
        c.sent_log() == c.taken_log() + c.pending_lines(),
        c.written() == outbound_stream(c.taken_log()),
        outbound_stream(c.sent_log()) == c.written() + outbound_stream(c.pending_lines()),
        c.pending_lines().len() == 0 ==> c.written() == outbound_stream(c.sent_log()),
{
    lemma_outbound_stream_concat(c.taken_log(), c.pending_lines());
    if c.pending_lines().len() == 0 {
        assert(c.taken_log() + c.pending_lines() =~= c.taken_log());
    }
}

/// The process is never left behind: after the grace period the runner either
/// observed the exit or kills the process.
pub proof fn lemma_no_process_left(obs: ExitObservation)
    ensures
        exit_action_of(obs) == ExitAction::Reaped <==> obs == ExitObservation::Exited,
        obs != ExitObservation::Exited ==> exit_action_of(obs) == ExitAction::Kill,
{
}

} // verus!
