//! The background runtime: the commands it takes, the state it shares with
//! the user interface, and the decisions it makes on each command and on each
//! fetched metadata.

use crate::metadata::{ConsumerParams, Metadata, TopicView};
use std::sync::mpsc::{Receiver, Sender};
use std::sync::{Arc, RwLock};
use vstd::prelude::*;
use vstd::string::StringExecFns;

verus! {

/// Declares `std::sync::mpsc::Receiver` so that the runtime can hold one;
/// nothing is claimed of what it does.
#[verifier::external_type_specification]
#[verifier::external_body]
#[verifier::reject_recursive_types(T)]
pub struct ExStdReceiver<T>(std::sync::mpsc::Receiver<T>);

/// Declares `std::sync::mpsc::Sender` so that the runtime can hold one;
/// nothing is claimed of what it does.
#[verifier::external_type_specification]
#[verifier::external_body]
#[verifier::reject_recursive_types(T)]
pub struct ExStdSender<T>(std::sync::mpsc::Sender<T>);

/// Declares `std::sync::RwLock` so that the runtime can hold the shared state
/// behind one; nothing is claimed of what it does.
#[verifier::external_type_specification]
#[verifier::external_body]
#[verifier::reject_recursive_types(T)]
pub struct ExStdRwLock<T: ?Sized>(std::sync::RwLock<T>);

/// A command sent to the runtime by the user interface.
pub enum Command {
    /// Greet the named user.
    Greet(String),
    /// Start fetching the metadata of the cluster at the given address.
    SpawnMetadataFetcher(String),
}

/// What the runtime does next.
pub enum CoreAction {
    /// Log this greeting and wait for the next command.
    Greet(String),
    /// Start a metadata fetcher for these parameters and wait for the next
    /// command.
    SpawnMetadataFetcher(ConsumerParams),
    /// The command channel is closed: the runtime stops.
    Exit,
}

/// The state that the runtime shares with the user interface: the latest
/// metadata fetched, if any.
pub struct State {
    pub metadata: Option<Metadata>,
}

/// The greeting logged for `name`.
pub open spec fn greeting_text(name: Seq<char>) -> Seq<char> {
    "Greetings "@ + name + "!"@
}

/// The metadata that a state holds, as a mathematical value.
pub open spec fn state_metadata(state: State) -> Option<Seq<TopicView>> {
    match state.metadata {
        Some(m) => Some(m@),
        None => None,
    }
}

impl Default for State {
    fn default() -> (r: State)
        ensures
            r.metadata is None,
    {
        State { metadata: None }
    }
}

/// The outcome of taking freshly fetched metadata when the state holds
/// `current`: whether the interface must be told, and the metadata held
/// afterwards. The interface is told exactly when nothing was held or
/// something different was; either way the fetched metadata is held after.
pub open spec fn refresh(current: Option<Seq<TopicView>>, fetched: Seq<TopicView>) -> (
    bool,
    Option<Seq<TopicView>>,
) {
    (current != Some(fetched), Some(fetched))
}

impl State {
    /// Takes the metadata of the latest fetch, as `refresh` says; the
    /// result says whether the user interface must be told.
    pub fn update_metadata(&mut self, fetched: Metadata) -> (updated: bool)
        ensures
            (updated, state_metadata(*final(self))) == refresh(state_metadata(*old(self)), fetched@),
            old(self).metadata is None ==> updated,
            updated <==> state_metadata(*old(self)) != Some(fetched@),
            state_metadata(*final(self)) == Some(fetched@),
            final(self).metadata matches Some(m) && m@ == fetched@,
    {
        let differs = match &self.metadata {
            None => true,
            Some(current) => !(*current == fetched),
        };
        if differs {
            self.metadata = Some(fetched);
        }
        differs
    }
}

/// The interface is told of every fetch while nothing is held, whatever was
/// fetched (an empty cluster too), and otherwise exactly when the held
/// metadata differs from the fetched one; afterwards the fetched metadata is
/// held.
pub proof fn lemma_refresh_tells_new_or_changed(
    current: Option<Seq<TopicView>>,
    fetched: Seq<TopicView>,
)
    ensures
        current is None ==> refresh(current, fetched).0,
        refresh(None, fetched).0,
        refresh(None, Seq::<TopicView>::empty()).0,
        current matches Some(c) ==> (refresh(current, fetched).0 <==> c != fetched),
        refresh(current, fetched).1 == Some(fetched),
{
}

/// Taking the same metadata twice in a row tells the interface nothing the
/// second time, and leaves the state as the first time left it.
pub proof fn lemma_refresh_idempotent(current: Option<Seq<TopicView>>, fetched: Seq<TopicView>)
    ensures
        !refresh(refresh(current, fetched).1, fetched).0,
        refresh(refresh(current, fetched).1, fetched).1 == refresh(current, fetched).1,
{
}

/// After any refresh the state holds the fetched metadata, so the interface
/// is told of a fetch exactly when it differs from the one before it.
pub proof fn lemma_refresh_tells_changes(
    current: Option<Seq<TopicView>>,
    first: Seq<TopicView>,
    second: Seq<TopicView>,
)
    ensures
        refresh(refresh(current, first).1, second).0 <==> first != second,
{
}

/// The runtime's side of the channels and the shared state.
pub struct CoreApp {
    pub command_rx: Receiver<Command>,
    pub update_tx: Sender<()>,
    pub state: Arc<RwLock<State>>,
}

impl CoreApp {
    pub fn new(command_rx: Receiver<Command>, update_tx: Sender<()>, state: Arc<RwLock<State>>) -> (r:
        Self)
        ensures
            r.command_rx == command_rx,
            r.update_tx == update_tx,
            r.state == state,
    {
        CoreApp { command_rx, update_tx, state }
    }
}

/// The greeting logged for `name`.
pub fn greeting(name: &String) -> (r: String)
    ensures
        r@ == greeting_text(name@),
{
    let mut r = String::from_str("Greetings ");
    r.append(name.as_str());
    r.append("!");
    r
}

/// The runtime's decision on what came out of the command channel: `None`
/// when the channel is closed.
pub fn core_step(received: Option<Command>) -> (action: CoreAction)
    ensures
        received is None ==> action is Exit,
        received matches Some(Command::Greet(name)) ==> action matches CoreAction::Greet(g)
            && g@ == greeting_text(name@),
        received matches Some(Command::SpawnMetadataFetcher(address))
            ==> action matches CoreAction::SpawnMetadataFetcher(p) && p.address@ == address@,
{
    match received {
        None => CoreAction::Exit,
        Some(Command::Greet(name)) => CoreAction::Greet(greeting(&name)),
        Some(Command::SpawnMetadataFetcher(address)) => CoreAction::SpawnMetadataFetcher(
            ConsumerParams { address },
        ),
    }
}

} // verus!
