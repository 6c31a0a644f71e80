//! The desktop back end: the state of its message loop (the running metadata
//! fetcher and the last metadata it saw), the state behind its commands, and
//! the decisions of the fetcher task.

use crate::metadata::{ConsumerParams, Metadata, TopicView};
use vstd::prelude::*;
use vstd::string::StringExecFns;

verus! {

/// The error answered to a request to start a fetcher while one runs.
pub open spec fn already_running_text() -> Seq<char> {
    "Metadata fetcher already running"@
}

/// The state of the back end's message loop, as a mathematical value: the
/// running fetcher's handle, if any, and the last metadata reported.
pub struct BackendView<H> {
    pub fetcher: Option<H>,
    pub last: Seq<TopicView>,
}

/// Whether a request to start a fetcher is refused.
pub open spec fn spawn_refused<H>(v: BackendView<H>) -> bool {
    v.fetcher is Some
}

/// The state after a fetcher with handle `h` was started.
pub open spec fn with_fetcher<H>(v: BackendView<H>, h: H) -> BackendView<H> {
    BackendView { fetcher: Some(h), ..v }
}

/// The state after the running fetcher was removed.
pub open spec fn without_fetcher<H>(v: BackendView<H>) -> BackendView<H> {
    BackendView { fetcher: None, ..v }
}

/// The state after the fetcher reported metadata `m`.
pub open spec fn with_last<H>(v: BackendView<H>, m: Seq<TopicView>) -> BackendView<H> {
    BackendView { last: m, ..v }
}

/// The state of the back end's message loop: the handle of the running
/// metadata fetcher task, if one runs, and the last metadata it reported.
pub struct InternalState<H> {
    metadata_fetcher_task_handle: Option<H>,
    last_metadata: Metadata,
}

impl<H> View for InternalState<H> {
    type V = BackendView<H>;

    closed spec fn view(&self) -> BackendView<H> {
        BackendView { fetcher: self.metadata_fetcher_task_handle, last: self.last_metadata@ }
    }
}

impl<H> InternalState<H> {
    /// No fetcher runs and no topic is known.
    pub fn new() -> (r: Self)
        ensures
            r@.fetcher is None,
            r@.last == Seq::<TopicView>::empty(),
    {
        InternalState { metadata_fetcher_task_handle: None, last_metadata: Metadata::default() }
    }

    /// Whether a fetcher may be started: an error exactly when one already
    /// runs.
    pub fn check_spawn(&self) -> (r: Result<(), String>)
        ensures
            r is Err <==> spawn_refused(self@),
            r matches Err(e) ==> e@ == already_running_text(),
    {
        match &self.metadata_fetcher_task_handle {
            Some(_) => Err(String::from_str("Metadata fetcher already running")),
            None => Ok(()),
        }
    }

    /// Records the handle of the fetcher just started.
    pub fn register_fetcher(&mut self, handle: H)
        requires
            !spawn_refused(old(self)@),
        ensures
            final(self)@ == with_fetcher(old(self)@, handle),
    {
        self.metadata_fetcher_task_handle = Some(handle);
    }

    /// Hands out the handle of the running fetcher, to be stopped, and
    /// forgets it. A fetcher must run.
    pub fn take_fetcher(&mut self) -> (r: H)
        requires
            old(self)@.fetcher is Some,
        ensures
            old(self)@.fetcher == Some(r),
            final(self)@ == without_fetcher(old(self)@),
    {
        let taken = self.metadata_fetcher_task_handle.take();
        match taken {
            Some(h) => h,
            None => {
                proof {
                    assert(false);
                }
                vstd::pervasive::unreached()
            },
        }
    }

    /// Records the metadata that the fetcher reported.
    pub fn set_last_metadata(&mut self, metadata: Metadata)
        ensures
            final(self)@ == with_last(old(self)@, metadata@),
    {
        self.last_metadata = metadata;
    }

    /// A copy of the last metadata reported.
    pub fn last_metadata(&self) -> (r: Metadata)
        ensures
            r@ == self@.last,
    {
        self.last_metadata.clone()
    }

    /// Whether a fetcher runs.
    pub fn is_connected(&self) -> (r: bool)
        ensures
            r == self@.fetcher is Some,
    {
        self.metadata_fetcher_task_handle.is_some()
    }
}

/// What the back end answers for the last metadata is what the fetcher
/// reported last, and reporting metadata does not change whether a fetcher
/// runs.
pub proof fn lemma_last_metadata_reads_back<H>(v: BackendView<H>, m: Seq<TopicView>)
    ensures
        with_last(v, m).last == m,
        with_last(v, m).fetcher == v.fetcher,
        with_last(with_last(v, m), m) == with_last(v, m),
{
}

/// A fetcher started while none runs is the one that a removal hands out;
/// while it runs a second start is refused and the back end reports itself
/// connected; its removal leaves the state as it was before the start, where
/// a start is allowed again.
pub proof fn lemma_fetcher_lifecycle<H>(v: BackendView<H>, h: H)
    requires
        !spawn_refused(v),
    ensures
        with_fetcher(v, h).fetcher == Some(h),
        spawn_refused(with_fetcher(v, h)),
        without_fetcher(with_fetcher(v, h)) == v,
        !spawn_refused(without_fetcher(with_fetcher(v, h))),
{
}

/// A message to the back end's loop. The payloads are what the loop hands
/// back with its reply: `P` what a started fetcher needs (or where a refusal
/// is answered), `L` and `C` where the last metadata and the connection state
/// are answered.
pub enum LoopMessage<P, L, C> {
    SpawnMetadataFetcher(P),
    RemoveMetadataFetcher,
    SetLastMetadata(Metadata),
    GetLastMetadata(L),
    GetIsConnected(C),
}

/// The loop's reply to one message.
pub enum LoopReply<P, L, C, H> {
    /// A fetcher runs already: answer this error through the payload.
    Refused(P, String),
    /// A fetcher was started and recorded.
    Started,
    /// The running fetcher was removed: stop the task of this handle.
    Removed(H),
    /// The reported metadata was recorded.
    Recorded,
    /// Answer this metadata through `L`.
    LastMetadata(L, Metadata),
    /// Answer whether a fetcher runs through `C`.
    IsConnected(C, bool),
}

/// A message to the loop, as a mathematical value; a start carries the
/// handle that the fetcher gets if it is started.
pub enum MsgView<H> {
    Spawn(H),
    Remove,
    SetLast(Seq<TopicView>),
    GetLast,
    GetIsConnected,
}

/// The loop's reply, as a mathematical value.
pub enum ReplyView<H> {
    Refused(Seq<char>),
    Started,
    Removed(H),
    Recorded,
    LastMetadata(Seq<TopicView>),
    IsConnected(bool),
}

/// A message as a mathematical value, `h` standing for the handle of a
/// fetcher it starts.
pub open spec fn msg_view<P, L, C, H>(msg: LoopMessage<P, L, C>, h: H) -> MsgView<H> {
    match msg {
        LoopMessage::SpawnMetadataFetcher(_) => MsgView::Spawn(h),
        LoopMessage::RemoveMetadataFetcher => MsgView::Remove,
        LoopMessage::SetLastMetadata(m) => MsgView::SetLast(m@),
        LoopMessage::GetLastMetadata(_) => MsgView::GetLast,
        LoopMessage::GetIsConnected(_) => MsgView::GetIsConnected,
    }
}

/// A reply as a mathematical value.
pub open spec fn reply_view<P, L, C, H>(r: LoopReply<P, L, C, H>) -> ReplyView<H> {
    match r {
        LoopReply::Refused(_, e) => ReplyView::Refused(e@),
        LoopReply::Started => ReplyView::Started,
        LoopReply::Removed(h) => ReplyView::Removed(h),
        LoopReply::Recorded => ReplyView::Recorded,
        LoopReply::LastMetadata(_, m) => ReplyView::LastMetadata(m@),
        LoopReply::IsConnected(_, b) => ReplyView::IsConnected(b),
    }
}

/// Whether the loop can take a message in a state: a removal needs a running
/// fetcher.
pub open spec fn admissible<H>(v: BackendView<H>, m: MsgView<H>) -> bool {
    m is Remove ==> v.fetcher is Some
}

/// One step of the loop: the state after a message and the reply to it.
/// A start is refused while a fetcher runs and records the new fetcher
/// otherwise; a removal hands out the running fetcher and forgets it; a
/// report is recorded as the last metadata; the queries answer the last
/// metadata and whether a fetcher runs.
pub open spec fn step<H>(v: BackendView<H>, m: MsgView<H>) -> (BackendView<H>, ReplyView<H>) {
    match m {
        MsgView::Spawn(h) => if spawn_refused(v) {
            (v, ReplyView::Refused(already_running_text()))
        } else {
            (with_fetcher(v, h), ReplyView::Started)
        },
        MsgView::Remove => (without_fetcher(v), ReplyView::Removed(v.fetcher->0)),
        MsgView::SetLast(m) => (with_last(v, m), ReplyView::Recorded),
        MsgView::GetLast => (v, ReplyView::LastMetadata(v.last)),
        MsgView::GetIsConnected => (v, ReplyView::IsConnected(v.fetcher is Some)),
    }
}

impl<H> InternalState<H> {
    /// Handles one message of the loop, as `step` says. A start calls `spawn`
    /// on its payload only when no fetcher runs; a refusal hands the payload
    /// back with the error, and the queries hand back where to answer.
    pub fn handle_message<P, L, C, F: FnOnce(P) -> H>(
        &mut self,
        msg: LoopMessage<P, L, C>,
        spawn: F,
    ) -> (r: LoopReply<P, L, C, H>)
        requires
            msg is RemoveMetadataFetcher ==> old(self)@.fetcher is Some,
            msg matches LoopMessage::SpawnMetadataFetcher(p) ==> call_requires(spawn, (p,)),
        ensures
            !(msg is SpawnMetadataFetcher) ==> forall|h: H|
                (#[trigger] step(old(self)@, msg_view(msg, h))) == (final(self)@, reply_view(r)),
            msg matches LoopMessage::SpawnMetadataFetcher(p) ==> exists|h: H|
                (#[trigger] step(old(self)@, MsgView::Spawn(h))) == (final(self)@, reply_view(r))
                    && (!spawn_refused(old(self)@) ==> call_ensures(spawn, (p,), h)),
            r matches LoopReply::Refused(q, _) ==> msg == LoopMessage::<P, L, C>::SpawnMetadataFetcher(q),
            r matches LoopReply::LastMetadata(l, _) ==> msg == LoopMessage::<P, L, C>::GetLastMetadata(l),
            r matches LoopReply::IsConnected(c, _) ==> msg == LoopMessage::<P, L, C>::GetIsConnected(c),
    {
        match msg {
            LoopMessage::SpawnMetadataFetcher(p) => {
                match self.check_spawn() {
                    Err(e) => {
                        let ghost h: H = arbitrary();
                        assert(step(old(self)@, MsgView::Spawn(h)) == (self@, ReplyView::<H>::Refused(e@)));
                        LoopReply::Refused(p, e)
                    },
                    Ok(()) => {
                        let handle = spawn(p);
                        self.register_fetcher(handle);
                        assert(step(old(self)@, MsgView::Spawn(handle)) == (self@, ReplyView::<H>::Started));
                        LoopReply::Started
                    },
                }
            },
            LoopMessage::RemoveMetadataFetcher => {
                let h = self.take_fetcher();
                LoopReply::Removed(h)
            },
            LoopMessage::SetLastMetadata(m) => {
                self.set_last_metadata(m);
                LoopReply::Recorded
            },
            LoopMessage::GetLastMetadata(l) => {
                let m = self.last_metadata();
                LoopReply::LastMetadata(l, m)
            },
            LoopMessage::GetIsConnected(c) => {
                let b = self.is_connected();
                LoopReply::IsConnected(c, b)
            },
        }
    }
}

/// The state after a sequence of messages.
pub open spec fn run<H>(v: BackendView<H>, msgs: Seq<MsgView<H>>) -> BackendView<H>
    decreases msgs.len(),
{
    if msgs.len() == 0 {
        v
    } else {
        step(run(v, msgs.drop_last()), msgs.last()).0
    }
}

/// Whether the loop takes every message of a sequence without panicking.
pub open spec fn admissible_run<H>(v: BackendView<H>, msgs: Seq<MsgView<H>>) -> bool
    decreases msgs.len(),
{
    msgs.len() == 0 || (admissible_run(v, msgs.drop_last()) && admissible(
        run(v, msgs.drop_last()),
        msgs.last(),
    ))
}

/// The metadata of the last report in a sequence, `initial` if none.
pub open spec fn last_reported<H>(initial: Seq<TopicView>, msgs: Seq<MsgView<H>>) -> Seq<TopicView>
    decreases msgs.len(),
{
    if msgs.len() == 0 {
        initial
    } else {
        match msgs.last() {
            MsgView::SetLast(m) => m,
            _ => last_reported(initial, msgs.drop_last()),
        }
    }
}

/// Whether a sequence holds a start with no removal after it.
pub open spec fn start_not_removed<H>(msgs: Seq<MsgView<H>>) -> bool {
    exists|i: int|
        0 <= i < msgs.len() && #[trigger] msgs[i] is Spawn && forall|j: int|
            i < j < msgs.len() ==> !(#[trigger] msgs[j] is Remove)
}

/// How many starts of a sequence started a fetcher.
pub open spec fn started<H>(v: BackendView<H>, msgs: Seq<MsgView<H>>) -> nat
    decreases msgs.len(),
{
    if msgs.len() == 0 {
        0
    } else {
        started(v, msgs.drop_last()) + if msgs.last() is Spawn && !spawn_refused(
            run(v, msgs.drop_last()),
        ) {
            1nat
        } else {
            0nat
        }
    }
}

/// How many removals a sequence holds.
pub open spec fn removed<H>(msgs: Seq<MsgView<H>>) -> nat
    decreases msgs.len(),
{
    if msgs.len() == 0 {
        0
    } else {
        removed(msgs.drop_last()) + if msgs.last() is Remove {
            1nat
        } else {
            0nat
        }
    }
}

/// The last metadata that the loop answers after any sequence of messages is
/// the one of the last report in it, or the initial one if none was reported.
pub proof fn lemma_last_metadata_after_messages<H>(v: BackendView<H>, msgs: Seq<MsgView<H>>)
    ensures
        run(v, msgs).last == last_reported(v.last, msgs),
        step(run(v, msgs), MsgView::GetLast).1 == ReplyView::<H>::LastMetadata(
            last_reported(v.last, msgs),
        ),
    decreases msgs.len(),
{
    if msgs.len() > 0 {
        lemma_last_metadata_after_messages(v, msgs.drop_last());
    }
}

/// Starting from no fetcher, after any sequence of messages the loop answers
/// that it is connected exactly when the sequence holds a start with no
/// removal after it.
pub proof fn lemma_connected_after_messages<H>(v: BackendView<H>, msgs: Seq<MsgView<H>>)
    requires
        v.fetcher is None,
    ensures
        run(v, msgs).fetcher is Some <==> start_not_removed(msgs),
        step(run(v, msgs), MsgView::GetIsConnected).1 == ReplyView::<H>::IsConnected(
            start_not_removed(msgs),
        ),
    decreases msgs.len(),
{
    if msgs.len() > 0 {
        let prefix = msgs.drop_last();
        let n = msgs.len() - 1;
        lemma_connected_after_messages(v, prefix);
        match msgs.last() {
            MsgView::Spawn(_) => {
                assert(msgs[n] is Spawn);
            },
            MsgView::Remove => {
                if start_not_removed(msgs) {
                    let i = choose|i: int|
                        0 <= i < msgs.len() && #[trigger] msgs[i] is Spawn && forall|j: int|
                            i < j < msgs.len() ==> !(#[trigger] msgs[j] is Remove);
                    assert(msgs[n] is Remove);
                }
            },
            _ => {
                if start_not_removed(prefix) {
                    let i = choose|i: int|
                        0 <= i < prefix.len() && #[trigger] prefix[i] is Spawn && forall|j: int|
                            i < j < prefix.len() ==> !(#[trigger] prefix[j] is Remove);
                    assert(msgs[i] is Spawn);
                    assert forall|j: int| i < j < msgs.len() implies !(#[trigger] msgs[j] is Remove) by {
                        if j < n {
                            assert(msgs[j] == prefix[j]);
                        }
                    }
                }
                if start_not_removed(msgs) {
                    let i = choose|i: int|
                        0 <= i < msgs.len() && #[trigger] msgs[i] is Spawn && forall|j: int|
                            i < j < msgs.len() ==> !(#[trigger] msgs[j] is Remove);
                    assert(i < n);
                    assert(prefix[i] is Spawn);
                    assert forall|j: int| i < j < prefix.len() implies !(#[trigger] prefix[j] is Remove) by {
                        assert(msgs[j] == prefix[j]);
                    }
                }
            },
        }
    }
}

/// Starting from no fetcher, along any sequence the loop takes without
/// panicking, the fetchers started minus the removals is one while a fetcher
/// runs and zero otherwise: at most one fetcher is ever running, and a start
/// starts one exactly when that difference is zero.
pub proof fn lemma_at_most_one_fetcher<H>(v: BackendView<H>, msgs: Seq<MsgView<H>>, h: H)
    requires
        v.fetcher is None,
        admissible_run(v, msgs),
    ensures
        removed(msgs) <= started(v, msgs) <= removed(msgs) + 1,
        started(v, msgs) == removed(msgs) + if run(v, msgs).fetcher is Some {
            1nat
        } else {
            0nat
        },
        step(run(v, msgs), MsgView::Spawn(h)).1 is Started <==> started(v, msgs) == removed(msgs),
    decreases msgs.len(),
{
    if msgs.len() > 0 {
        lemma_at_most_one_fetcher(v, msgs.drop_last(), h);
    }
}

/// What a reconnection does, as a mathematical value.
pub enum PlanView {
    NotConnected,
    Respawn(Seq<char>),
}

/// What a reconnection does, given the address of the last successful
/// connection and whether a fetcher runs (when one runs, a connection must
/// have been recorded).
pub open spec fn plan(last_address: Option<Seq<char>>, is_connected: bool) -> PlanView
    recommends
        is_connected ==> last_address is Some,
{
    if !is_connected {
        PlanView::NotConnected
    } else {
        PlanView::Respawn(last_address->0)
    }
}

/// What a reconnection does.
pub enum ReconnectPlan {
    /// No fetcher runs: nothing to reconnect.
    NotConnected,
    /// Stop the running fetcher and start one for these parameters.
    Respawn(ConsumerParams),
}

impl View for ReconnectPlan {
    type V = PlanView;

    open spec fn view(&self) -> PlanView {
        match self {
            ReconnectPlan::NotConnected => PlanView::NotConnected,
            ReconnectPlan::Respawn(p) => PlanView::Respawn(p.address@),
        }
    }
}

/// The state behind the back end's commands: the sender to its message loop
/// and the parameters of the last successful connection.
pub struct AppState<S> {
    message_sender: S,
    last_connection_params: Option<ConsumerParams>,
}

impl<S> AppState<S> {
    /// The sender to the message loop.
    pub closed spec fn sender(&self) -> S {
        self.message_sender
    }

    /// The address of the last successful connection, if any.
    pub closed spec fn last_address(&self) -> Option<Seq<char>> {
        match self.last_connection_params {
            Some(p) => Some(p.address@),
            None => None,
        }
    }

    pub fn new(sender: S) -> (r: Self)
        ensures
            r.sender() == sender,
            r.last_address() is None,
    {
        AppState { message_sender: sender, last_connection_params: None }
    }

    pub fn message_sender(&self) -> (r: &S)
        ensures
            *r == self.sender(),
    {
        &self.message_sender
    }

    /// Records the parameters of a connection that succeeded.
    pub fn record_connection(&mut self, params: ConsumerParams)
        ensures
            final(self).last_address() == Some(params.address@),
            final(self).sender() == old(self).sender(),
    {
        self.last_connection_params = Some(params);
    }

    /// Whether a successful connection was recorded.
    pub fn has_recorded_connection(&self) -> (r: bool)
        ensures
            r == self.last_address() is Some,
    {
        self.last_connection_params.is_some()
    }

    /// What a reconnection does, given whether a fetcher runs. When one runs,
    /// a connection must have been recorded.
    pub fn reconnect_plan(&self, is_connected: bool) -> (r: ReconnectPlan)
        requires
            is_connected ==> self.last_address() is Some,
        ensures
            r@ == plan(self.last_address(), is_connected),
    {
        if !is_connected {
            return ReconnectPlan::NotConnected;
        }
        match &self.last_connection_params {
            Some(p) => ReconnectPlan::Respawn(ConsumerParams { address: p.address.clone() }),
            None => {
                proof {
                    assert(false);
                }
                ReconnectPlan::NotConnected
            },
        }
    }
}

/// A reconnection while a fetcher runs starts one for the cluster of the
/// last successful connection; without a running fetcher it does nothing.
pub proof fn lemma_reconnect_uses_last_connection(address: Seq<char>, is_connected: bool)
    ensures
        is_connected ==> plan(Some(address), is_connected) == PlanView::Respawn(address),
        !is_connected ==> plan(Some(address), is_connected) == PlanView::NotConnected,
{
}

/// What the fetcher reports after fetching `fetched` when it last reported
/// `last`: the fetched metadata when it differs, nothing otherwise.
pub open spec fn report(last: Seq<TopicView>, fetched: Seq<TopicView>) -> Option<Seq<TopicView>> {
    if last == fetched {
        None
    } else {
        Some(fetched)
    }
}

/// The fetcher task's decision on freshly fetched metadata: it is reported
/// (and becomes the last metadata) exactly when it differs from the last one.
pub fn fetched_update(last: &Metadata, fetched: Metadata) -> (r: Option<Metadata>)
    ensures
        r is Some <==> report(last@, fetched@) is Some,
        r matches Some(m) ==> Some(m@) == report(last@, fetched@),
        r is Some <==> last@ != fetched@,
        r is None <==> last@ == fetched@,
        r matches Some(m) ==> m@ == fetched@,
{
    if *last == fetched {
        None
    } else {
        Some(fetched)
    }
}

/// The fetcher reports exactly the fetches that differ from the last report,
/// in any topic or any field of one (name, partitions, counts, timestamp,
/// size) or in the number or order of topics, and what it reports is the
/// fetched metadata itself.
pub proof fn lemma_report_exactly_changes(last: Seq<TopicView>, fetched: Seq<TopicView>)
    ensures
        report(last, fetched) is Some <==> last != fetched,
        report(last, fetched) matches Some(m) ==> m == fetched,
        last.len() != fetched.len() ==> report(last, fetched) == Some(fetched),
        forall|i: int|
            0 <= i < last.len() && i < fetched.len() && #[trigger] last[i] != #[trigger] fetched[i]
                ==> report(last, fetched) == Some(fetched),
        forall|i: int|
            0 <= i < last.len() && i < fetched.len() && (#[trigger] last[i]).partitions_count
                != (#[trigger] fetched[i]).partitions_count ==> report(last, fetched) == Some(
                fetched,
            ),
{
}

/// Once metadata has been reported and recorded as the last one, fetching it
/// again reports nothing: each change is reported once.
pub proof fn lemma_report_once<H>(v: BackendView<H>, fetched: Seq<TopicView>)
    ensures
        report(fetched, fetched) is None,
        report(v.last, fetched) matches Some(m) ==> report(with_last(v, m).last, fetched) is None,
{
}

/// What the fetcher task does after its first fetch, which tests the
/// connection.
pub enum FirstFetch {
    /// The cluster answered: report success and keep fetching.
    Connected,
    /// The cluster did not answer: ask the loop to remove this fetcher, then
    /// report this error and stop.
    Failed(String),
}

/// The fetcher task's decision on its first fetch: it keeps running exactly
/// when the fetch succeeded, and otherwise reports the fetch's error.
pub fn first_fetch_outcome(result: Result<Metadata, String>) -> (r: FirstFetch)
    ensures
        result is Ok <==> r is Connected,
        result matches Err(e) ==> (r matches FirstFetch::Failed(f) && f@ == e@),
{
    match result {
        Ok(_) => FirstFetch::Connected,
        Err(e) => FirstFetch::Failed(e),
    }
}

} // verus!
