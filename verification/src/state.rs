//! The channels on which the events of each game are published.
//!
//! There is one channel for each game that a viewer has connected to, or
//! that was asked for otherwise. A channel is made when it is first asked
//! for and is never replaced nor taken away. All clones of an [`AppState`]
//! share the same channels, and any of them may publish or make a channel at
//! any time. So what is stated is which channel a game has, once and for
//! all, and what it holds; not which games have a channel at a given time.

use vstd::prelude::*;
use dashmap::DashMap;
use std::sync::Arc;
use tokio::sync::broadcast::Sender;
use crate::protocol::ServerMessage;

verus! {

/// A map that many threads may read and write at once.
#[verifier::external_type_specification]
#[verifier::external_body]
#[verifier::reject_recursive_types(K)]
#[verifier::reject_recursive_types(V)]
#[verifier::reject_recursive_types(S)]
pub struct ExDashMap<K, V, S>(DashMap<K, V, S>);

/// The sending half of a channel that hands each value to every receiver.
#[verifier::external_type_specification]
#[verifier::external_body]
#[verifier::reject_recursive_types(T)]
pub struct ExSender<T>(Sender<T>);

/// How many events a channel keeps for a viewer who is slow to read. Such a
/// viewer misses the older events; publishing never waits.
pub const CHANNEL_CAPACITY: usize = 64;

/// The channels of all games, by the games' identifiers.
pub type GameChannels = Arc<DashMap<u128, Channel>>;

/// What the handlers of all requests and connections share.
#[derive(Clone)]
pub struct AppState {
    /// The channels of the games. An entry, once made, stays as it is: what
    /// is stated of [`AppState::get_or_create_channel`] holds as long as
    /// nobody replaces an entry or takes one away.
    pub channels: GameChannels,
}

/// The sender that a registry holds for a game, from the first time that the
/// game's channel is asked for: an entry is never replaced nor taken away.
/// Two senders are equal where they feed one channel.
pub uninterp spec fn channel_for(channels: DashMap<u128, Channel>, game_id: u128) -> Sender<
    ServerMessage,
>;

/// How many events a channel keeps for a viewer who is slow to read: what
/// `tokio::sync::broadcast::channel` made its buffer hold.
pub uninterp spec fn retained(tx: Sender<ServerMessage>) -> nat;

/// The least power of two that is at least `n`, found by doubling `power`,
/// which starts at one.
pub open spec fn doubled_up_to(n: nat, power: nat) -> nat
    decreases
        (if power < n {
            n - power
        } else {
            0
        }),
{
    if 0 < power < n {
        doubled_up_to(n, 2 * power)
    } else {
        power
    }
}

/// Calls `DashMap::new`.
#[verifier::external_body]
fn empty_channels() -> DashMap<u128, Channel> {
    DashMap::new()
}

/// Calls `tokio::sync::broadcast::channel` and keeps the sending half. That
/// function panics on a capacity of zero or of more than half of
/// `usize::MAX`, and rounds any other up to the next power of two.
#[verifier::external_body]
fn open_channel(capacity: usize) -> (tx: Sender<ServerMessage>)
    requires
        0 < capacity <= usize::MAX / 2,
    ensures
        retained(tx) == doubled_up_to(capacity as nat, 1),
{
    tokio::sync::broadcast::channel(capacity).0
}

/// Calls `DashMap::entry` and `Entry::or_insert_with`, and hands out a clone
/// of the channel that the map then holds for `game_id`: the one it held
/// already, or else a new one from [`Channel::new`]. Either way it is the
/// one channel that the map holds for the game from then on.
#[verifier::external_body]
fn channel_entry(channels: &DashMap<u128, Channel>, game_id: u128) -> (channel: Channel)
    ensures
        channel.sender() == channel_for(*channels, game_id),
{
    channels.entry(game_id).or_insert_with(|| Channel::new()).clone()
}

/// Calls `DashMap::get` and hands out a clone of the sender found, if any:
/// it is then that of the one channel that the map holds for the game.
/// Nothing is said of a game for which none is found: one may be made at any
/// time.
#[verifier::external_body]
fn channel_of(channels: &DashMap<u128, Channel>, game_id: u128) -> (found: Option<
    Sender<ServerMessage>,
>)
    ensures
        found matches Some(tx) ==> tx == channel_for(*channels, game_id),
{
    match channels.get(&game_id) {
        Some(channel) => Some(channel.tx.clone()),
        None => None,
    }
}

/// Calls `Sender::send`, which never waits. Gives the number of receivers
/// that the value was queued for, which is then at least one, or nothing
/// where there is no receiver.
#[verifier::external_body]
fn send(tx: &Sender<ServerMessage>, msg: ServerMessage) -> (queued: Option<usize>)
    ensures
        queued matches Some(receivers) ==> receivers > 0,
{
    match tx.send(msg) {
        Ok(receivers) => Some(receivers),
        Err(_) => None,
    }
}

/// A channel of the capacity that every game's channel has.
pub fn new_channel() -> (tx: Sender<ServerMessage>)
    ensures
        retained(tx) == CHANNEL_CAPACITY,
{
    assert(doubled_up_to(64, 1) == 64) by {
        reveal_with_fuel(doubled_up_to, 8);
    }
    open_channel(CHANNEL_CAPACITY)
}

/// Publishes an event on a game's channel, if the game has one. Gives the
/// number of viewers that the event was queued for; nothing where there is
/// no channel, and so nobody to tell.
pub fn publish(channel: Option<Sender<ServerMessage>>, msg: ServerMessage) -> (queued: Option<usize>)
    ensures
        channel is None ==> queued is None,
        queued matches Some(viewers) ==> viewers > 0,
{
    match channel {
        Some(tx) => send(&tx, msg),
        None => None,
    }
}

impl AppState {
    /// A state without channels.
    pub fn new() -> Self {
        AppState { channels: Arc::new(empty_channels()) }
    }

    /// The channel of a game, made now if the game had none. It is the same
    /// channel each time that it is asked for, here or through a clone of
    /// this state, and it keeps [`CHANNEL_CAPACITY`] events for a viewer who
    /// is slow to read.
    pub fn get_or_create_channel(&self, game_id: u128) -> (tx: Sender<ServerMessage>)
        ensures
            tx == channel_for(*self.channels, game_id),
            retained(tx) == CHANNEL_CAPACITY,
    {
        channel_entry(&self.channels, game_id).into_sender()
    }

    /// Publishes an event to the viewers of a game. Where the game has no
    /// channel, or the channel no viewer, nothing happens.
    pub fn broadcast(&self, game_id: u128, msg: ServerMessage) {
        let _ = publish(channel_of(&self.channels, game_id), msg);
    }

    /// Publishes events to the viewers of a game, in their order.
    pub fn broadcast_all(&self, game_id: u128, events: Vec<ServerMessage>) {
        for msg in events {
            self.broadcast(game_id, msg);
        }
    }
}

/// The channel of one game. Whoever holds one, holds a channel that keeps
/// [`CHANNEL_CAPACITY`] events for a viewer who is slow to read: there is no
/// other way to make one than [`Channel::new`].
pub struct Channel {
    tx: Sender<ServerMessage>,
}

/// Calls `Sender::clone`, which gives another handle to the same channel.
#[verifier::external_body]
fn same_channel(tx: &Sender<ServerMessage>) -> (handle: Sender<ServerMessage>)
    ensures
        retained(handle) == retained(*tx),
{
    tx.clone()
}

impl Clone for Channel {
    fn clone(&self) -> (copy: Channel) {
        proof {
            use_type_invariant(self);
        }
        Channel { tx: same_channel(&self.tx) }
    }
}

impl Channel {
    #[verifier::type_invariant]
    spec fn keeps_capacity(self) -> bool {
        retained(self.tx) == CHANNEL_CAPACITY
    }

    /// The sending half of the channel.
    pub closed spec fn sender(self) -> Sender<ServerMessage> {
        self.tx
    }

    /// A channel for a game that has none yet.
    pub fn new() -> Channel {
        Channel { tx: new_channel() }
    }

    /// The sending half of the channel, on which events are published and
    /// to which viewers subscribe.
    pub fn into_sender(self) -> (tx: Sender<ServerMessage>)
        ensures
            tx == self.sender(),
            retained(tx) == CHANNEL_CAPACITY,
    {
        proof {
            use_type_invariant(&self);
        }
        self.tx
    }
}

} // verus!
