//! The control loop of one exchange, as a state machine.
//!
//! The caller drives it: it sends the transcript when told to, hands back the
//! reply, runs the tool when told to, hands back what the run left, and stops
//! at `Finished` or `Failed`.
use vstd::prelude::*;

use crate::message::{
    opt_str_view, calls_of, calls_view, content_len, ChatError, Message, MessageView, Role, ToolCall,
    ToolCallView, ToolDefinition,
};
use crate::tool::{run_text, ToolRun};
use crate::transcript::{budget_verdict, reported, total_len, Transcript};

verus! {

/// Where the exchange stands.
#[derive(PartialEq, Eq, Structural, Clone, Copy, Debug)]
pub enum Phase {
    /// The transcript is to be sent and a reply is awaited.
    AwaitingReply,
    /// A tool run is awaited.
    RunningTool,
    /// The final answer was given.
    Finished,
    /// The exchange failed.
    Failed,
}

/// What the caller is to do next.
#[derive(Clone, Debug, PartialEq, Eq)]
pub enum Step {
    /// Send the transcript and hand back the reply.
    SendRequest,
    /// Run the tool with these arguments and hand back what the run left.
    RunTool(String),
    /// The exchange is over; this is its answer.
    Finished(String),
    /// The exchange is over; this is why it failed.
    Failed(ChatError),
}

/// The phase that a step leaves the exchange in.
pub open spec fn phase_after(step: Step) -> Phase {
    match step {
        Step::SendRequest => Phase::AwaitingReply,
        Step::RunTool(_) => Phase::RunningTool,
        Step::Finished(_) => Phase::Finished,
        Step::Failed(_) => Phase::Failed,
    }
}

/// Whether a tool call is of the one kind that is understood.
pub open spec fn is_function_call(c: ToolCallView) -> bool {
    c.kind == "function"@
}

/// The position of the first function call in `calls` at or after `from`;
/// the length of `calls` where there is none.
pub open spec fn next_function_call(calls: Seq<ToolCallView>, from: int) -> int
    decreases calls.len() - from,
{
    if from >= calls.len() {
        calls.len() as int
    } else if is_function_call(calls[from]) {
        from
    } else {
        next_function_call(calls, from + 1)
    }
}

/// The ids that the results of the function calls among `calls` carry, in
/// the order of the calls.
pub open spec fn answer_ids(calls: Seq<ToolCallView>) -> Seq<Option<Seq<char>>>
    decreases calls.len(),
{
    if calls.len() == 0 {
        Seq::empty()
    } else if is_function_call(calls.last()) {
        answer_ids(calls.drop_last()).push(Some(calls.last().id))
    } else {
        answer_ids(calls.drop_last())
    }
}

/// The results of a reply's calls answer its function calls, each once, in
/// the order in which the reply lists them; other calls are skipped.
pub proof fn lemma_answers_follow_call_order(calls: Seq<ToolCallView>)
    ensures
        answer_ids(calls) == calls.filter(|c: ToolCallView| is_function_call(c)).map_values(
            |c: ToolCallView| Some(c.id),
        ),
    decreases calls.len(),
{
    reveal(Seq::filter);
    if calls.len() > 0 {
        let rest = calls.drop_last();
        lemma_answers_follow_call_order(rest);
        let sub = rest.filter(|c: ToolCallView| is_function_call(c));
        assert(calls.filter(|c: ToolCallView| is_function_call(c)) == (if is_function_call(
            calls.last(),
        ) {
            sub.push(calls.last())
        } else {
            sub
        }));
        if is_function_call(calls.last()) {
            assert(sub.push(calls.last()).map_values(|c: ToolCallView| Some(c.id))
                =~= sub.map_values(|c: ToolCallView| Some(c.id)).push(Some(calls.last().id)));
        }
    } else {
        assert(calls.filter(|c: ToolCallView| is_function_call(c)).map_values(
            |c: ToolCallView| Some(c.id),
        ) =~= Seq::<Option<Seq<char>>>::empty());
    }
}

/// The call ids that the messages answer, in order.
pub open spec fn result_ids(msgs: Seq<MessageView>) -> Seq<Option<Seq<char>>> {
    msgs.map_values(|m: MessageView| m.tool_call_id)
}

/// What handling the calls from position `from` on asks of the caller: to
/// run the next function call, to fail on one that names another function
/// than the configured tool, or to send the transcript once none is left.
pub open spec fn dispatch_step(
    calls: Seq<ToolCallView>,
    from: int,
    tool_name: Option<Seq<char>>,
    step: Step,
) -> bool {
    let j = next_function_call(calls, from);
    if j >= calls.len() {
        step == Step::SendRequest
    } else if tool_name != Some(calls[j].name) {
        match step {
            Step::Failed(ChatError::UnknownFunctionRequested(n)) => n@ == calls[j].name,
            _ => false,
        }
    } else {
        match step {
            Step::RunTool(a) => a@ == calls[j].arguments,
            _ => false,
        }
    }
}

/// The opening of the transcript: the user's message, then the system
/// message where there is one.
pub open spec fn opening(user: Seq<char>, system: Option<Seq<char>>) -> Seq<MessageView> {
    let u = MessageView { role: Role::User, content: Some(user), tool_calls: None, tool_call_id: None };
    match system {
        Some(s) => seq![
            u,
            MessageView { role: Role::System, content: Some(s), tool_calls: None, tool_call_id: None },
        ],
        None => seq![u],
    }
}

/// The message that carries a tool's output for the call with id `id`.
pub open spec fn tool_message(id: Seq<char>, output: Seq<char>) -> MessageView {
    MessageView { role: Role::Tool, content: Some(output), tool_calls: None, tool_call_id: Some(id) }
}

/// One exchange with the remote model: its transcript, its limit, the tool
/// that it may offer, and where it stands.
pub struct Conversation {
    model: String,
    limit: usize,
    tool: Option<ToolDefinition>,
    transcript: Transcript,
    phase: Phase,
    /// The position of the reply whose tool calls are being handled.
    reply: usize,
    /// The position, among those calls, of the next one to handle.
    cursor: usize,
}

/// The mathematical view of a [`Conversation`].
pub struct ConversationView {
    /// The model that the requests name.
    pub model: Seq<char>,
    /// The most characters that the transcript may hold.
    pub limit: usize,
    /// The name of the configured tool, where there is one.
    pub tool_name: Option<Seq<char>>,
    /// The messages exchanged so far.
    pub messages: Seq<MessageView>,
    /// Where the exchange stands.
    pub phase: Phase,
    /// The tool calls of the reply being handled.
    pub pending: Seq<ToolCallView>,
    /// The position, among the pending calls, of the one that is run.
    pub cursor: int,
    /// The call ids answered by the messages after the reply being handled.
    pub batch_results: Seq<Option<Seq<char>>>,
}

/// The name of the tool, where there is one.
pub open spec fn tool_name_of(tool: Option<ToolDefinition>) -> Option<Seq<char>> {
    match tool {
        Some(t) => Some(t.function.name@),
        None => None,
    }
}

impl View for Conversation {
    type V = ConversationView;

    closed spec fn view(&self) -> ConversationView {
        ConversationView {
            model: self.model@,
            limit: self.limit,
            tool_name: tool_name_of(self.tool),
            messages: self.transcript@,
            phase: self.phase,
            pending: self.pending_calls(),
            cursor: self.cursor as int,
            batch_results: result_ids(self.transcript@.skip(self.reply + 1)),
        }
    }
}

impl Conversation {
    /// The tool definition that the requests offer, where there is one.
    pub closed spec fn tool_def(&self) -> Option<ToolDefinition> {
        self.tool
    }

    closed spec fn pending_calls(&self) -> Seq<ToolCallView> {
        if self.reply < self.transcript@.len() {
            calls_of(self.transcript@[self.reply as int])
        } else {
            Seq::empty()
        }
    }

    /// The transcript is consistent, and while a tool runs, the call being
    /// run is a function call naming the configured tool, and the results
    /// after the reply answer the function calls before it, in order.
    pub closed spec fn wf(&self) -> bool {
        &&& self.transcript.wf()
        &&& self.phase == Phase::RunningTool ==> {
            &&& self.reply < self.transcript@.len()
            &&& self.cursor < self@.pending.len()
            &&& is_function_call(self@.pending[self.cursor as int])
            &&& self@.tool_name == Some(self@.pending[self.cursor as int].name)
            &&& self@.batch_results == answer_ids(self@.pending.take(self.cursor as int))
        }
    }
}

/// Whether a call's kind is `"function"`, the one kind that is run; calls
/// of other kinds are skipped.
pub fn is_function_kind(kind: &String) -> (r: bool)
    ensures
        r == (kind@ == "function"@),
{
    let f = String::from_str("function");
    kind.eq(&f)
}

proof fn lemma_answer_ids_take(p: Seq<ToolCallView>, k: int)
    requires
        0 <= k < p.len(),
    ensures
        answer_ids(p.take(k + 1)) == (if is_function_call(p[k]) {
            answer_ids(p.take(k)).push(Some(p[k].id))
        } else {
            answer_ids(p.take(k))
        }),
{
    assert(p.take(k + 1).drop_last() =~= p.take(k));
    assert(p.take(k + 1).last() == p[k]);
}

/// The position of the first function call at or after `from`.
fn first_function_call(calls: &Vec<ToolCall>, from: usize) -> (j: usize)
    requires
        from <= calls@.len(),
    ensures
        j == next_function_call(calls_view(calls@), from as int),
        from <= j <= calls@.len(),
        j < calls@.len() ==> is_function_call(calls_view(calls@)[j as int]),
        answer_ids(calls_view(calls@).take(j as int)) == answer_ids(
            calls_view(calls@).take(from as int),
        ),
{
    let ghost p = calls_view(calls@);
    let mut j: usize = from;
    while j < calls.len() && !is_function_kind(&calls[j].kind)
        invariant
            from <= j <= calls@.len(),
            p == calls_view(calls@),
            next_function_call(p, from as int) == next_function_call(p, j as int),
            answer_ids(p.take(j as int)) == answer_ids(p.take(from as int)),
        decreases calls@.len() - j,
    {
        proof {
            lemma_answer_ids_take(p, j as int);
        }
        j = j + 1;
    }
    j
}

impl Conversation {
    /// Hands out the next function call from position `from` on, among the
    /// calls of the reply being handled.
    fn dispatch_from(&mut self, from: usize) -> (step: Step)
        requires
            old(self).transcript.wf(),
            old(self).reply < old(self).transcript@.len(),
            from <= old(self)@.pending.len(),
            old(self)@.batch_results == answer_ids(old(self)@.pending.take(from as int)),
        ensures
            final(self).wf(),
            final(self)@.messages == old(self)@.messages,
            final(self)@.model == old(self)@.model,
            final(self)@.limit == old(self)@.limit,
            final(self)@.tool_name == old(self)@.tool_name,
            final(self).tool_def() == old(self).tool_def(),
            final(self)@.pending == old(self)@.pending,
            final(self)@.batch_results == old(self)@.batch_results,
            final(self)@.phase == phase_after(step),
            dispatch_step(old(self)@.pending, from as int, old(self)@.tool_name, step),
            step is RunTool ==> final(self)@.cursor == next_function_call(
                old(self)@.pending,
                from as int,
            ),
            step is SendRequest ==> final(self)@.batch_results == answer_ids(final(self)@.pending),
            step is RunTool ==> final(self)@.batch_results == answer_ids(
                final(self)@.pending.take(final(self)@.cursor),
            ),
    {
        let ghost p = self@.pending;
        let msg = self.transcript.get(self.reply);
        let calls = match &msg.tool_calls {
            Some(v) => v,
            None => {
                self.phase = Phase::AwaitingReply;
                self.cursor = 0;
                assert(p.take(0) =~= p);
                return Step::SendRequest;
            },
        };
        assert(p == calls_view(calls@));
        let n = calls.len();
        let j = first_function_call(calls, from);
        if j >= n {
            assert(p.take(n as int) =~= p);
            self.phase = Phase::AwaitingReply;
            self.cursor = n;
            return Step::SendRequest;
        }
        let call = &calls[j];
        let known = match &self.tool {
            Some(t) => t.function.name.eq(&call.function.name),
            None => false,
        };
        if !known {
            let name = call.function.name.clone();
            self.phase = Phase::Failed;
            return Step::Failed(ChatError::UnknownFunctionRequested(name));
        }
        let arguments = call.function.arguments.clone();
        self.phase = Phase::RunningTool;
        self.cursor = j;
        Step::RunTool(arguments)
    }
}

impl Conversation {
    /// Opens an exchange: the user's message, then the system message where
    /// there is one. The opening must hold some content and no more than
    /// `limit` characters; otherwise the exchange fails before any request.
    pub fn start(
        model: String,
        limit: usize,
        tool: Option<ToolDefinition>,
        user: String,
        system: Option<String>,
    ) -> (r: Result<Conversation, ChatError>)
        ensures
            match r {
                Ok(c) => {
                    &&& c.wf()
                    &&& c@.messages == opening(user@, opt_str_view(system))
                    &&& c@.phase == Phase::AwaitingReply
                    &&& c@.model == model@
                    &&& c@.limit == limit
                    &&& c@.tool_name == tool_name_of(tool)
                    &&& c.tool_def() == tool
                    &&& budget_verdict(total_len(c@.messages), limit) is Ok
                },
                Err(e) => budget_verdict(total_len(opening(user@, opt_str_view(system))), limit)
                    == Err::<(), ChatError>(e),
            },
            total_len(opening(user@, opt_str_view(system))) == 0 ==> r == Err::<
                Conversation,
                ChatError,
            >(ChatError::EmptyInput),
            total_len(opening(user@, opt_str_view(system))) > limit ==> r == Err::<
                Conversation,
                ChatError,
            >(
                ChatError::BudgetExceeded(
                    reported(total_len(opening(user@, opt_str_view(system)))),
                    limit,
                ),
            ),
            0 < total_len(opening(user@, opt_str_view(system))) <= limit ==> r is Ok,
    {
        let ghost u = user@;
        let ghost sys = opt_str_view(system);
        let ghost first = opening(u, None);
        let mut transcript = Transcript::new();
        let m = Message::user(user);
        // the length is measured for its bound: a first message always fits
        let _user_len = m.content_length();
        transcript.push(m);
        assert(transcript@ =~= first);
        assert(first.drop_last() =~= Seq::<MessageView>::empty());
        match system {
            Some(s) => {
                let m = Message::system(s);
                let n = m.content_length();
                assert(opening(u, sys).drop_last() =~= first);
                if !transcript.fits(n) {
                    return Err(ChatError::BudgetExceeded(usize::MAX, limit));
                }
                transcript.push(m);
                assert(transcript@ =~= opening(u, sys));
            },
            None => {},
        }
        match transcript.check(limit) {
            Ok(()) => Ok(
                Conversation {
                    model,
                    limit,
                    tool,
                    transcript,
                    phase: Phase::AwaitingReply,
                    reply: 0,
                    cursor: 0,
                },
            ),
            Err(e) => Err(e),
        }
    }

    /// Takes the model's reply, which joins the transcript whatever follows.
    ///
    /// A reply with tool calls hands out its first function call; one
    /// without gives its content as the answer, once the whole transcript
    /// passes the size check, and fails with `EmptyModelReply` where it has
    /// no content. A reply too large for the transcript to hold at all fails
    /// without joining it.
    pub fn receive_reply(&mut self, reply: Message) -> (step: Step)
        requires
            old(self).wf(),
            old(self)@.phase == Phase::AwaitingReply,
        ensures
            final(self).wf(),
            final(self)@.model == old(self)@.model,
            final(self)@.limit == old(self)@.limit,
            final(self)@.tool_name == old(self)@.tool_name,
            final(self).tool_def() == old(self).tool_def(),
            final(self)@.phase == phase_after(step),
            total_len(old(self)@.messages) + content_len(reply@) > usize::MAX ==> {
                &&& step == Step::Failed(ChatError::BudgetExceeded(usize::MAX, old(self)@.limit))
                &&& final(self)@.messages == old(self)@.messages
            },
            total_len(old(self)@.messages) + content_len(reply@) <= usize::MAX
                ==> final(self)@.messages == old(self)@.messages.push(reply@),
            total_len(old(self)@.messages) + content_len(reply@) <= usize::MAX && calls_of(
                reply@,
            ).len() > 0 ==> {
                &&& dispatch_step(calls_of(reply@), 0, old(self)@.tool_name, step)
                &&& final(self)@.pending == calls_of(reply@)
            },
            calls_of(reply@).len() == 0 && reply@.content is None ==> step == Step::Failed(
                ChatError::EmptyModelReply,
            ),
            total_len(old(self)@.messages) + content_len(reply@) <= usize::MAX && calls_of(
                reply@,
            ).len() == 0 && reply@.content is Some ==> match budget_verdict(
                total_len(final(self)@.messages),
                old(self)@.limit,
            ) {
                Ok(_) => step is Finished && step->Finished_0@ == reply@.content->0,
                Err(e) => step == Step::Failed(e),
            },
            calls_of(reply@).len() > 0 && step is SendRequest ==> final(self)@.batch_results
                == answer_ids(final(self)@.pending),
            calls_of(reply@).len() > 0 && step is RunTool ==> final(self)@.cursor
                == next_function_call(calls_of(reply@), 0),
            calls_of(reply@).len() > 0 && step is RunTool ==> final(self)@.batch_results
                == answer_ids(final(self)@.pending.take(final(self)@.cursor)),
            calls_of(reply@).len() > 0 ==> !(step is Finished),
            calls_of(reply@).len() == 0 && reply@.content is Some && 0 < total_len(
                old(self)@.messages.push(reply@),
            ) <= old(self)@.limit ==> step is Finished && step->Finished_0@ == reply@.content->0,
    {
        let n = reply.content_length();
        proof {
            self.transcript.lemma_total_bounded();
            assert(old(self)@.messages.push(reply@).drop_last() =~= old(self)@.messages);
        }
        if !self.transcript.fits(n) {
            self.phase = Phase::Failed;
            return Step::Failed(ChatError::BudgetExceeded(usize::MAX, self.limit));
        }
        let has_calls = match &reply.tool_calls {
            Some(v) => v.len() > 0,
            None => false,
        };
        let content = match &reply.content {
            Some(c) => Some(c.clone()),
            None => None,
        };
        self.transcript.push(reply);
        proof {
            let t = self.transcript@;
            assert(t.drop_last() =~= old(self)@.messages);
        }
        if has_calls {
            self.reply = self.transcript.len() - 1;
            proof {
                assert(self.transcript@.skip(self.reply + 1) =~= Seq::<MessageView>::empty());
                assert(result_ids(self.transcript@.skip(self.reply + 1)) =~= Seq::empty());
                assert(self@.pending.take(0) =~= Seq::<ToolCallView>::empty());
            }
            return self.dispatch_from(0);
        }
        match content {
            None => {
                self.phase = Phase::Failed;
                Step::Failed(ChatError::EmptyModelReply)
            },
            Some(c) => match self.transcript.check(self.limit) {
                Ok(()) => {
                    self.phase = Phase::Finished;
                    Step::Finished(c)
                },
                Err(e) => {
                    self.phase = Phase::Failed;
                    Step::Failed(e)
                },
            },
        }
    }
}

impl Conversation {
    /// Takes what the run of the pending call left. Its output, where it is
    /// text and keeps the transcript within the limit, joins the transcript
    /// as the answer to that call, and the next function call of the same
    /// reply is handed out; after the last one the transcript is to be sent
    /// again. An output that would pass the limit fails the exchange before
    /// it joins the transcript.
    pub fn receive_tool_output(&mut self, run: ToolRun) -> (step: Step)
        requires
            old(self).wf(),
            old(self)@.phase == Phase::RunningTool,
        ensures
            final(self).wf(),
            final(self)@.model == old(self)@.model,
            final(self)@.limit == old(self)@.limit,
            final(self)@.tool_name == old(self)@.tool_name,
            final(self).tool_def() == old(self).tool_def(),
            final(self)@.pending == old(self)@.pending,
            final(self)@.phase == phase_after(step),
            match run_text(run.success, run.code, run.stdout@) {
                Err(e) => step == Step::Failed(e) && final(self)@.messages == old(self)@.messages,
                Ok(t) => if total_len(old(self)@.messages) + t.len() > old(self)@.limit {
                    &&& step == Step::Failed(
                        ChatError::BudgetExceeded(
                            reported((total_len(old(self)@.messages) + t.len()) as nat),
                            old(self)@.limit,
                        ),
                    )
                    &&& final(self)@.messages == old(self)@.messages
                } else {
                    &&& final(self)@.messages == old(self)@.messages.push(
                        tool_message(old(self)@.pending[old(self)@.cursor].id, t),
                    )
                    &&& dispatch_step(
                        old(self)@.pending,
                        old(self)@.cursor + 1,
                        old(self)@.tool_name,
                        step,
                    )
                },
            },
            step is RunTool ==> final(self)@.cursor == next_function_call(
                old(self)@.pending,
                old(self)@.cursor + 1,
            ),
            step is SendRequest ==> final(self)@.batch_results == answer_ids(final(self)@.pending),
            step is RunTool ==> final(self)@.batch_results == answer_ids(
                final(self)@.pending.take(final(self)@.cursor),
            ),
    {
        let ghost p = self@.pending;
        let ghost c = self@.cursor;
        let ghost before = self.transcript@;
        let text = match run.output_text() {
            Ok(t) => t,
            Err(e) => {
                self.phase = Phase::Failed;
                return Step::Failed(e);
            },
        };
        let n = text.as_str().unicode_len();
        match self.transcript.check_growth(n, self.limit) {
            Ok(()) => {},
            Err(e) => {
                self.phase = Phase::Failed;
                return Step::Failed(e);
            },
        }
        let (id, next) = {
            let msg = self.transcript.get(self.reply);
            match &msg.tool_calls {
                Some(v) => {
                    let len = v.len();
                    proof {
                        assert(p == calls_view(v@));
                        assert(self.cursor < len);
                    }
                    (v[self.cursor].id.clone(), self.cursor + 1)
                },
                None => {
                    proof {
                        assert(p.len() == 0);
                    }
                    (String::new(), 0)
                },
            }
        };
        let m = Message::tool_result(id, text);
        self.transcript.push(m);
        proof {
            let after = self.transcript@;
            let r = self.reply as int;
            assert(after[r] == before[r]);
            assert(after.skip(r + 1) =~= before.skip(r + 1).push(m@));
            assert(result_ids(after.skip(r + 1)) =~= result_ids(before.skip(r + 1)).push(
                m@.tool_call_id,
            ));
            lemma_answer_ids_take(p, c);
        }
        self.dispatch_from(next)
    }

    /// The model that the requests name.
    pub fn model(&self) -> (m: &String)
        ensures
            m@ == self@.model,
    {
        &self.model
    }

    /// The most characters that the transcript may hold.
    pub fn limit(&self) -> (l: usize)
        ensures
            l == self@.limit,
    {
        self.limit
    }

    /// The tool that the requests offer, where there is one.
    pub fn tool(&self) -> (t: &Option<ToolDefinition>)
        ensures
            *t == self.tool_def(),
            tool_name_of(*t) == self@.tool_name,
    {
        &self.tool
    }

    /// The transcript, to be sent as it stands.
    pub fn transcript(&self) -> (t: &Transcript)
        requires
            self.wf(),
        ensures
            t@ == self@.messages,
            t.wf(),
    {
        &self.transcript
    }

    /// Where the exchange stands.
    pub fn phase(&self) -> (p: Phase)
        ensures
            p == self@.phase,
    {
        self.phase
    }
}

} // verus!
