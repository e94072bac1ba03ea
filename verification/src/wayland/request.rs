//! A portal method whose result arrives as a `Response` on a request object.
//!
//! The program subscribes to the request object that the handle token names, makes the call with
//! the completed options, and then waits for the answer. A portal that predates handle tokens
//! answers on the path it returned from the call; that path is then subscribed to as well.
use crate::text;
use crate::wayland::portal;
use crate::wayland::variant::{Tree, VarDict, Variant};
use vstd::prelude::*;
use vstd::string::StringExecFns;

verus! {

/// The numbers that tell the requests of a process apart.
#[derive(Debug)]
pub struct Serials {
    next: u32,
}

/// The number taken `n` takes behind one at which `first` is next; after the last it starts anew
/// with zero.
pub open spec fn serial_at(first: u32, n: nat) -> u32 {
    ((first + n) % 0x1_0000_0000) as u32
}

impl Serials {
    /// The number that is next.
    pub closed spec fn view(&self) -> u32 {
        self.next
    }

    /// The numbers from one on.
    pub fn new() -> (serials: Serials)
        ensures
            serials@ == 1,
    {
        Serials { next: 1 }
    }

    /// Takes the number that is next.
    pub fn take(&mut self) -> (serial: u32)
        ensures
            serial == old(self)@,
            serial == serial_at(old(self)@, 0),
            final(self)@ == serial_at(old(self)@, 1),
    {
        let serial: u32 = self.next;
        self.next = if serial == u32::MAX {
            0
        } else {
            serial + 1
        };
        serial
    }
}

/// What a request is waiting for.
pub enum Phase {
    Subscribe,
    Call,
    /// Subscribe to the path that the call returned.
    Resubscribe(String),
    Await,
}

/// A request under way.
pub struct Request {
    method: String,
    path: String,
    options: VarDict,
    phase: Phase,
}

/// [`Phase`] as a mathematical value.
pub enum PhaseView {
    Subscribe,
    Call,
    Resubscribe(Seq<char>),
    Await,
}

/// A request as a mathematical value: the method, the request object it expects the answer on,
/// the options to call with, and what it waits for.
pub struct State {
    pub method: Seq<char>,
    pub path: Seq<char>,
    pub options: Map<Seq<char>, Tree>,
    pub phase: PhaseView,
}

/// What a request asks for.
pub enum Step<'a> {
    /// Subscribe to `Response` on this request object.
    Subscribe(&'a str),
    /// Make the call with these options.
    Call(&'a VarDict),
    /// Wait for the next `Response` of the last subscription.
    Await,
}

/// [`Step`] as a mathematical value.
pub enum StepView {
    Subscribe(Seq<char>),
    Call(Map<Seq<char>, Tree>),
    Await,
}

/// What came of a step.
pub enum Reply {
    /// The subscription stands.
    Subscribed,
    /// The call returned this request object.
    Handle(String),
    /// The step failed.
    Failed(String),
    /// The subscription ended without a response.
    Closed,
    /// A response came.
    Response(u32, VarDict),
}

/// [`Reply`] as a mathematical value.
pub enum ReplyView {
    Subscribed,
    Handle(Seq<char>),
    Failed(Seq<char>),
    Closed,
    Response(u32, Map<Seq<char>, Tree>),
}

/// Where a request stands after a step.
pub enum Progress {
    Going(Request),
    Answered(VarDict),
}

/// [`Progress`] as a mathematical value.
pub enum ProgressView {
    Going(State),
    Answered(Map<Seq<char>, Tree>),
}

impl Phase {
    pub open spec fn view(&self) -> PhaseView {
        match self {
            Phase::Subscribe => PhaseView::Subscribe,
            Phase::Call => PhaseView::Call,
            Phase::Resubscribe(p) => PhaseView::Resubscribe(p@),
            Phase::Await => PhaseView::Await,
        }
    }
}

impl<'a> Step<'a> {
    pub open spec fn view(&self) -> StepView {
        match self {
            Step::Subscribe(p) => StepView::Subscribe(p@),
            Step::Call(o) => StepView::Call(o@),
            Step::Await => StepView::Await,
        }
    }
}

impl Reply {
    pub open spec fn view(&self) -> ReplyView {
        match self {
            Reply::Subscribed => ReplyView::Subscribed,
            Reply::Handle(p) => ReplyView::Handle(p@),
            Reply::Failed(e) => ReplyView::Failed(e@),
            Reply::Closed => ReplyView::Closed,
            Reply::Response(code, results) => ReplyView::Response(*code, results@),
        }
    }

    /// The dictionary in it, if there is one, is one.
    pub open spec fn wf(&self) -> bool {
        match self {
            Reply::Response(_, results) => results.wf(),
            _ => true,
        }
    }
}

impl Progress {
    pub open spec fn view(&self) -> ProgressView {
        match self {
            Progress::Going(r) => ProgressView::Going(r@),
            Progress::Answered(results) => ProgressView::Answered(results@),
        }
    }

    pub open spec fn wf(&self) -> bool {
        match self {
            Progress::Going(r) => r.wf(),
            Progress::Answered(results) => results.wf(),
        }
    }
}

/// Whether `reply` is one that the step of `phase` can have.
pub open spec fn fits(phase: PhaseView, reply: ReplyView) -> bool {
    match phase {
        PhaseView::Subscribe | PhaseView::Resubscribe(_) => reply is Subscribed || reply is Failed,
        PhaseView::Call => reply is Handle || reply is Failed,
        PhaseView::Await => reply is Closed || reply is Response || reply is Failed,
    }
}

/// What the response `code` of `method` means for a request that got it with `results`: zero is
/// success, one that the user cancelled, all else that the portal refused.
pub open spec fn judged(
    method: Seq<char>,
    code: u32,
    results: Map<Seq<char>, Tree>,
) -> Result<ProgressView, Seq<char>> {
    if code == 0 {
        Ok(ProgressView::Answered(results))
    } else if code == 1 {
        Err(method + ": the user cancelled the portal dialog"@)
    } else {
        Err(method + ": the portal refused (response "@ + text::decimal(code as nat) + ")"@)
    }
}

impl State {
    /// The step that is due.
    pub open spec fn step(self) -> StepView {
        match self.phase {
            PhaseView::Subscribe => StepView::Subscribe(self.path),
            PhaseView::Call => StepView::Call(self.options),
            PhaseView::Resubscribe(path) => StepView::Subscribe(path),
            PhaseView::Await => StepView::Await,
        }
    }

    /// Where the request stands after `reply` came to the step that was due, or the error that
    /// ends it.
    pub open spec fn next(self, reply: ReplyView) -> Result<ProgressView, Seq<char>> {
        match (self.phase, reply) {
            (PhaseView::Subscribe, ReplyView::Failed(e)) => Err(e),
            (PhaseView::Subscribe, _) => Ok(
                ProgressView::Going(State { phase: PhaseView::Call, ..self }),
            ),
            (PhaseView::Call, ReplyView::Handle(handle)) => if handle != self.path {
                Ok(ProgressView::Going(State { phase: PhaseView::Resubscribe(handle), ..self }))
            } else {
                Ok(ProgressView::Going(State { phase: PhaseView::Await, ..self }))
            },
            (PhaseView::Resubscribe(_), ReplyView::Failed(e)) => Err(e),
            (PhaseView::Resubscribe(_), _) => Ok(
                ProgressView::Going(State { phase: PhaseView::Await, ..self }),
            ),
            (PhaseView::Await, ReplyView::Closed) => Err(
                self.method + ": the request closed without a response"@,
            ),
            (PhaseView::Await, ReplyView::Response(code, results)) => judged(
                self.method,
                code,
                results,
            ),
            (_, ReplyView::Failed(e)) => Err(self.method + ": "@ + e),
            (_, _) => Ok(ProgressView::Going(self)),
        }
    }
}

/// The state in which a request starts: its path and the token in its options name the request
/// object of the `serial`-th request that the process `pid` makes as `sender`.
pub open spec fn asked(
    method: Seq<char>,
    options: Map<Seq<char>, Tree>,
    pid: nat,
    serial: nat,
    sender: Seq<char>,
) -> State {
    let token = portal::handle_token_of(pid, serial);
    State {
        method,
        path: portal::request_path_of(sender, token),
        options: options.insert("handle_token"@, Tree::Str(token)),
        phase: PhaseView::Subscribe,
    }
}

impl Request {
    /// The options are a dictionary.
    pub closed spec fn wf(&self) -> bool {
        self.options.wf()
    }

    pub closed spec fn view(&self) -> State {
        State {
            method: self.method@,
            path: self.path@,
            options: self.options@,
            phase: self.phase@,
        }
    }

    /// A request of `method` with `options`, which takes the next of the numbers of the process
    /// `pid`, on a connection whose unique name is `sender`.
    pub fn new(
        method: &str,
        options: VarDict,
        pid: u32,
        serials: &mut Serials,
        sender: Option<&str>,
    ) -> (request: Result<Request, String>)
        requires
            options.wf(),
        ensures
            final(serials)@ == serial_at(old(serials)@, 1),
            match (sender, request) {
                (Some(name), Ok(r)) => r.wf() && r@ == asked(
                    method@,
                    options@,
                    pid as nat,
                    old(serials)@ as nat,
                    name@,
                ),
                (None, Err(e)) => e@ == "bus connection has no unique name"@,
                _ => false,
            },
    {
        let token: String = portal::handle_token(pid, serials.take());
        let name: &str = match sender {
            Some(name) => name,
            None => {
                return Err("bus connection has no unique name".to_owned());
            },
        };
        let path: String = portal::request_path(name, token.as_str());
        let mut options: VarDict = options;
        options.insert("handle_token", Variant::Str(token));
        Ok(Request { method: method.to_owned(), path, options, phase: Phase::Subscribe })
    }

    /// The step that is due.
    pub fn step(&self) -> (step: Step<'_>)
        requires
            self.wf(),
        ensures
            step@ == self@.step(),
            step matches Step::Call(options) ==> options.wf(),
    {
        match &self.phase {
            Phase::Subscribe => Step::Subscribe(self.path.as_str()),
            Phase::Call => Step::Call(&self.options),
            Phase::Resubscribe(path) => Step::Subscribe(path.as_str()),
            Phase::Await => Step::Await,
        }
    }

    /// What a response of `method` with `code` and `results` comes to.
    pub fn judge(method: &str, code: u32, results: VarDict) -> (end: Result<VarDict, String>)
        requires
            results.wf(),
        ensures
            match end {
                Ok(r) => r.wf() && judged(method@, code, results@) == Ok::<
                    ProgressView,
                    Seq<char>,
                >(ProgressView::Answered(r@)),
                Err(e) => judged(method@, code, results@) == Err::<ProgressView, Seq<char>>(e@),
            },
    {
        if code == 0 {
            return Ok(results);
        }
        let mut message: String = method.to_owned();
        if code == 1 {
            message.append(": the user cancelled the portal dialog");
        } else {
            message.append(": the portal refused (response ");
            text::push_decimal(&mut message, code as u64);
            message.append(")");
        }
        Err(message)
    }

    /// Takes `reply`, the answer to the step that was due. An error ends the request.
    pub fn reply(self, reply: Reply) -> (end: Result<Progress, String>)
        requires
            self.wf(),
            reply.wf(),
            fits(self@.phase, reply@),
        ensures
            match end {
                Ok(p) => p.wf() && self@.next(reply@) == Ok::<ProgressView, Seq<char>>(p@),
                Err(e) => self@.next(reply@) == Err::<ProgressView, Seq<char>>(e@),
            },
    {
        let Request { method, path, options, phase } = self;
        let phase: Phase = match (phase, reply) {
            (Phase::Subscribe, Reply::Failed(e)) => {
                return Err(e);
            },
            (Phase::Subscribe, _) => Phase::Call,
            (Phase::Call, Reply::Handle(handle)) => {
                if text::same_text(handle.as_str(), path.as_str()) {
                    Phase::Await
                } else {
                    Phase::Resubscribe(handle)
                }
            },
            (Phase::Resubscribe(_), Reply::Failed(e)) => {
                return Err(e);
            },
            (Phase::Resubscribe(_), _) => Phase::Await,
            (Phase::Await, Reply::Closed) => {
                let mut message: String = method;
                message.append(": the request closed without a response");
                return Err(message);
            },
            (Phase::Await, Reply::Response(code, results)) => {
                return match Request::judge(method.as_str(), code, results) {
                    Ok(results) => Ok(Progress::Answered(results)),
                    Err(e) => Err(e),
                };
            },
            (_, Reply::Failed(e)) => {
                return Err(text::labelled(method.as_str(), e.as_str()));
            },
            (phase, _) => phase,
        };
        Ok(Progress::Going(Request { method, path, options, phase }))
    }
}

/// One take behind another, the numbers are those of [`serial_at`].
pub proof fn takes_follow_each_other(first: u32, n: nat)
    ensures
        serial_at(first, 0) == first,
        serial_at(serial_at(first, 1), n) == serial_at(first, n + 1),
{
}

/// No two requests of a process have the same number, nor then the same handle token, as long as
/// it makes no more than there are numbers of 32 bits; on one connection they are answered on
/// request objects of their own.
pub proof fn requests_are_told_apart(first: u32, i: nat, j: nat, pid: nat, sender: Seq<char>)
    requires
        i < j < i + 0x1_0000_0000,
    ensures
        serial_at(first, i) != serial_at(first, j),
        ({
            let token = portal::handle_token_of(pid, serial_at(first, i) as nat);
            let other = portal::handle_token_of(pid, serial_at(first, j) as nat);
            &&& token != other
            &&& portal::request_path_of(sender, token) != portal::request_path_of(sender, other)
        }),
{
    let a = serial_at(first, i) as nat;
    let b = serial_at(first, j) as nat;
    assert(a != b);
    if portal::handle_token_of(pid, a) == portal::handle_token_of(pid, b) {
        portal::handle_tokens_are_distinct(pid, a, pid, b);
    }
    if portal::request_path_of(sender, portal::handle_token_of(pid, a))
        == portal::request_path_of(sender, portal::handle_token_of(pid, b)) {
        portal::request_paths_are_distinct(sender, pid, a, pid, b);
    }
}

/// The exchange: a request subscribes to the path that its token names before it calls, calls
/// with that token among its options, and then waits on the object that the call returned, to
/// which it is subscribed by then.
pub proof fn subscribed_before_the_call(
    method: Seq<char>,
    options: Map<Seq<char>, Tree>,
    pid: nat,
    serial: nat,
    sender: Seq<char>,
    handle: Seq<char>,
)
    ensures
        ({
            let first = asked(method, options, pid, serial, sender);
            let token = portal::handle_token_of(pid, serial);
            let path = portal::request_path_of(sender, token);
            let calling = State { phase: PhaseView::Call, ..first };
            let moved = State { phase: PhaseView::Resubscribe(handle), ..first };
            let waiting = State { phase: PhaseView::Await, ..first };
            &&& first.step() == StepView::Subscribe(path)
            &&& first.next(ReplyView::Subscribed) == Ok::<ProgressView, Seq<char>>(
                ProgressView::Going(calling),
            )
            &&& calling.step() == StepView::Call(options.insert("handle_token"@, Tree::Str(token)))
            &&& calling.next(ReplyView::Handle(path)) == Ok::<ProgressView, Seq<char>>(
                ProgressView::Going(waiting),
            )
            &&& handle != path ==> calling.next(ReplyView::Handle(handle)) == Ok::<
                ProgressView,
                Seq<char>,
            >(ProgressView::Going(moved))
            &&& moved.step() == StepView::Subscribe(handle)
            &&& moved.next(ReplyView::Subscribed) == Ok::<ProgressView, Seq<char>>(
                ProgressView::Going(waiting),
            )
        }),
{
}

/// Whether `replies` are answers to the steps that a request takes one after the other, up to its
/// end at most.
pub open spec fn answers(s: State, replies: Seq<ReplyView>) -> bool
    decreases replies.len(),
{
    replies.len() > 0 ==> {
        &&& fits(s.phase, replies[0])
        &&& match s.next(replies[0]) {
            Ok(ProgressView::Going(t)) => answers(t, replies.drop_first()),
            _ => replies.len() == 1,
        }
    }
}

/// What a request comes to that got `replies`, or the error that ended it.
pub open spec fn outcome(s: State, replies: Seq<ReplyView>) -> Result<ProgressView, Seq<char>>
    decreases replies.len(),
{
    if replies.len() == 0 {
        Ok(ProgressView::Going(s))
    } else {
        match s.next(replies[0]) {
            Ok(ProgressView::Going(t)) => outcome(t, replies.drop_first()),
            end => end,
        }
    }
}

/// The steps that a request has taken that got `replies`.
pub open spec fn taken(s: State, replies: Seq<ReplyView>) -> Seq<StepView>
    decreases replies.len(),
{
    if replies.len() == 0 {
        Seq::empty()
    } else {
        match s.next(replies[0]) {
            Ok(ProgressView::Going(t)) => seq![s.step()] + taken(t, replies.drop_first()),
            _ => seq![s.step()],
        }
    }
}

/// A request that is answered has subscribed, called once with its token, subscribed to the path
/// that the call returned where that is another, and waited once.
pub proof fn answered_request_called_once(
    method: Seq<char>,
    options: Map<Seq<char>, Tree>,
    pid: nat,
    serial: nat,
    sender: Seq<char>,
    replies: Seq<ReplyView>,
    results: Map<Seq<char>, Tree>,
)
    requires
        answers(asked(method, options, pid, serial, sender), replies),
        outcome(asked(method, options, pid, serial, sender), replies) == Ok::<
            ProgressView,
            Seq<char>,
        >(ProgressView::Answered(results)),
    ensures
        ({
            let s = asked(method, options, pid, serial, sender);
            let token = portal::handle_token_of(pid, serial);
            let path = portal::request_path_of(sender, token);
            let call = StepView::Call(options.insert("handle_token"@, Tree::Str(token)));
            &&& replies[1] matches ReplyView::Handle(handle)
            &&& taken(s, replies) == if handle == path {
                seq![StepView::Subscribe(path), call, StepView::Await]
            } else {
                seq![
                    StepView::Subscribe(path),
                    call,
                    StepView::Subscribe(handle),
                    StepView::Await,
                ]
            }
            &&& replies.last() == ReplyView::Response(0, results)
        }),
{
    reveal_with_fuel(answers, 6);
    reveal_with_fuel(outcome, 6);
    reveal_with_fuel(taken, 6);
    let s = asked(method, options, pid, serial, sender);
    let rest = replies.drop_first();
    assert(replies.len() > 1 ==> rest[0] == replies[1]);
    assert(replies.len() > 2 ==> rest.drop_first()[0] == replies[2]);
    assert(replies.len() > 3 ==> rest.drop_first().drop_first()[0] == replies[3]);
    let token = portal::handle_token_of(pid, serial);
    let path = portal::request_path_of(sender, token);
    let call = StepView::Call(options.insert("handle_token"@, Tree::Str(token)));
    if let ReplyView::Handle(handle) = replies[1] {
        if handle == path {
            assert(taken(s, replies) =~= seq![StepView::Subscribe(path), call, StepView::Await]);
        } else {
            assert(taken(s, replies) =~= seq![
                StepView::Subscribe(path),
                call,
                StepView::Subscribe(handle),
                StepView::Await,
            ]);
        }
    }
}

/// No way leads to the call but through the subscription.
pub proof fn call_needs_subscription(s: State, reply: ReplyView, t: State)
    requires
        fits(s.phase, reply),
        s.next(reply) == Ok::<ProgressView, Seq<char>>(ProgressView::Going(t)),
    ensures
        t.phase is Call ==> s.phase is Subscribe && reply is Subscribed,
        t.method == s.method && t.path == s.path && t.options == s.options,
{
}

/// How many steps are left at most.
pub open spec fn steps_left(phase: PhaseView) -> nat {
    match phase {
        PhaseView::Subscribe => 4,
        PhaseView::Call => 3,
        PhaseView::Resubscribe(_) => 2,
        PhaseView::Await => 1,
    }
}

/// Every step brings a request nearer to its end, so that it takes four at most.
pub proof fn request_ends(s: State, reply: ReplyView, t: State)
    requires
        fits(s.phase, reply),
        s.next(reply) == Ok::<ProgressView, Seq<char>>(ProgressView::Going(t)),
    ensures
        steps_left(t.phase) < steps_left(s.phase),
{
}

/// Only a response whose code is zero answers a request.
pub proof fn only_success_answers(s: State, reply: ReplyView, results: Map<Seq<char>, Tree>)
    requires
        fits(s.phase, reply),
        s.next(reply) == Ok::<ProgressView, Seq<char>>(ProgressView::Answered(results)),
    ensures
        s.phase is Await,
        reply == ReplyView::Response(0, results),
{
}

} // verus!
