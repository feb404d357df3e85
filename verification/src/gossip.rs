//! The pub/sub overlay facade: starting the overlay on a bound endpoint and
//! subscribing to a topic.

use vstd::prelude::*;
use crate::endpoint::IrohEndpoint;
use crate::error::{prerequisite_refusal, FacadeError, FacadeErrorView};
use crate::peer::{public_key_bytes, PeerId};

verus! {

/// Length of a topic identifier, in bytes.
pub const TOPIC_LENGTH: usize = 32;

/// Overlay work that `subscribe` asks for: join `topic`, starting from `peers`.
#[derive(Debug, PartialEq, Eq)]
pub struct Subscription {
    pub topic: Vec<u8>,
    pub peers: Vec<PeerId>,
}

/// A pub/sub overlay, started or not yet, and the two ends of its subscription.
#[derive(Debug)]
pub struct IrohGossip<G, S, R> {
    gossip: Option<G>,
    sender: Option<S>,
    receiver: Option<R>,
}

/// What reading one text as a peer identifier gives: the key bytes, or the
/// text itself where it is no public key.
pub open spec fn read_peer(text: Seq<char>) -> Result<Seq<u8>, Seq<char>> {
    match public_key_bytes(text) {
        Some(bytes) => Ok(bytes),
        None => Err(text),
    }
}

/// Mathematical value of one reading.
pub open spec fn reading(read: Result<PeerId, String>) -> Result<Seq<u8>, Seq<char>> {
    match read {
        Ok(peer) => Ok(peer@),
        Err(text) => Err(text@),
    }
}

/// Mathematical value of a list of readings.
pub open spec fn readings(read: Seq<Result<PeerId, String>>) -> Seq<Result<Seq<u8>, Seq<char>>> {
    Seq::new(read.len(), |i: int| reading(read[i]))
}

/// The least index at or after `from` whose text was no public key, or the
/// length of `read` where every text was one.
pub open spec fn first_unparsed(read: Seq<Result<Seq<u8>, Seq<char>>>, from: int) -> int
    decreases read.len() - from,
{
    if from >= read.len() {
        read.len() as int
    } else if read[from] is Err {
        from
    } else {
        first_unparsed(read, from + 1)
    }
}

/// Why `subscribe` ends before any overlay work, if it does. The checks run
/// in this order: the topic must have [`TOPIC_LENGTH`] bytes, every peer
/// identifier must be a public key (the first that is not is reported), and
/// the overlay must have been started.
pub open spec fn subscribe_refusal(
    started: bool,
    topic_len: nat,
    read: Seq<Result<Seq<u8>, Seq<char>>>,
) -> Option<FacadeErrorView> {
    if topic_len != TOPIC_LENGTH {
        Some(FacadeErrorView::InvalidTopic(topic_len))
    } else if first_unparsed(read, 0) < read.len() {
        Some(FacadeErrorView::InvalidPeerIdentifier(read[first_unparsed(read, 0)]->Err_0))
    } else if !started {
        Some(FacadeErrorView::NotInitialized)
    } else {
        None
    }
}

/// `first_unparsed` finds the first text that was no public key: every
/// reading before the index it gives is a key, and the reading at that
/// index, if there is one, is not.
pub proof fn lemma_first_unparsed(read: Seq<Result<Seq<u8>, Seq<char>>>, from: int)
    requires
        0 <= from <= read.len(),
    ensures
        from <= first_unparsed(read, from) <= read.len(),
        forall|j: int| from <= j < first_unparsed(read, from) ==> (#[trigger] read[j]) is Ok,
        first_unparsed(read, from) < read.len() ==> read[first_unparsed(read, from)] is Err,
    decreases read.len() - from,
{
    if from < read.len() && read[from] is Ok {
        lemma_first_unparsed(read, from + 1);
    }
}

/// `subscribe` goes on to the overlay exactly where the topic has
/// [`TOPIC_LENGTH`] bytes, every peer identifier is a public key, and the
/// overlay has been started.
pub proof fn lemma_subscribe_accepted(
    started: bool,
    topic_len: nat,
    read: Seq<Result<Seq<u8>, Seq<char>>>,
)
    ensures
        subscribe_refusal(started, topic_len, read) is None <==> {
            &&& topic_len == TOPIC_LENGTH
            &&& forall|j: int| 0 <= j < read.len() ==> (#[trigger] read[j]) is Ok
            &&& started
        },
{
    lemma_first_unparsed(read, 0);
}

/// The readings of a list of texts, in order.
pub open spec fn read_peers(keys: Seq<String>) -> Seq<Result<Seq<u8>, Seq<char>>> {
    Seq::new(keys.len(), |i: int| read_peer(keys[i]@))
}

/// Reads every text as a peer identifier, in order; a text that is none is
/// kept in its place.
pub fn parse_peers(peer_public_keys: &Vec<String>) -> (read: Vec<Result<PeerId, String>>)
    ensures
        readings(read@) == read_peers(peer_public_keys@),
{
    let mut read: Vec<Result<PeerId, String>> = Vec::new();
    let mut i: usize = 0;
    while i < peer_public_keys.len()
        invariant
            i <= peer_public_keys@.len(),
            read@.len() == i,
            forall|j: int|
                0 <= j < i ==> reading(#[trigger] read@[j]) == read_peer(peer_public_keys@[j]@),
        decreases peer_public_keys@.len() - i,
    {
        let text = &peer_public_keys[i];
        match PeerId::parse(text.as_str()) {
            Some(peer) => read.push(Ok(peer)),
            None => read.push(Err(text.clone())),
        }
        i += 1;
    }
    assert(readings(read@) =~= read_peers(peer_public_keys@));
    read
}

impl<G, S, R> IrohGossip<G, S, R> {
    /// The overlay, once started.
    pub closed spec fn overlay(&self) -> Option<G> {
        self.gossip
    }

    /// The sending end of the subscription, once subscribed.
    pub closed spec fn sender_end(&self) -> Option<S> {
        self.sender
    }

    /// The receiving end of the subscription, once subscribed.
    pub closed spec fn receiver_end(&self) -> Option<R> {
        self.receiver
    }

    /// A facade with no overlay and no subscription.
    pub fn new() -> (facade: Self)
        ensures
            facade.overlay() is None,
            facade.sender_end() is None,
            facade.receiver_end() is None,
    {
        IrohGossip { gossip: None, sender: None, receiver: None }
    }

    /// Whether the overlay has been started.
    pub fn is_spawned(&self) -> (started: bool)
        ensures
            started == (self.overlay() is Some),
    {
        self.gossip.is_some()
    }

    /// Starts the overlay on `endpoint` with `start` and keeps it. An
    /// unbound endpoint refuses with `NotInitialized`: `start` is not
    /// called and the facade stays as it was.
    pub fn spawn<E, F: FnOnce(&E) -> G>(&mut self, endpoint: &IrohEndpoint<E>, start: F) -> (started:
        Result<(), FacadeError>)
        requires
            endpoint@ matches Some(binding) ==> call_requires(start, (&binding.transport,)),
        ensures
            final(self).sender_end() == old(self).sender_end(),
            final(self).receiver_end() == old(self).receiver_end(),
            match started {
                Ok(_) => endpoint@ matches Some(binding) && final(self).overlay() matches Some(g)
                    && call_ensures(start, (&binding.transport,), g),
                Err(e) => {
                    &&& Some(e@) == prerequisite_refusal(endpoint@ is Some)
                    &&& final(self).overlay() == old(self).overlay()
                },
            },
    {
        match endpoint.accept_logic() {
            Ok(transport) => {
                self.gossip = Some(start(transport));
                Ok(())
            },
            Err(error) => Err(error),
        }
    }

    /// First step of `subscribe`, given what reading each peer identifier
    /// produced. Refuses as [`subscribe_refusal`] says; otherwise the work
    /// names the topic and the peers, in the order given.
    pub fn subscribe_checked(&self, topic: &Vec<u8>, read: &Vec<Result<PeerId, String>>) -> (request:
        Result<Subscription, FacadeError>)
        ensures
            match request {
                Ok(work) => {
                    &&& subscribe_refusal(self.overlay() is Some, topic@.len(), readings(read@))
                        is None
                    &&& work.topic@ == topic@
                    &&& work.peers@.len() == read@.len()
                    &&& forall|i: int|
                        0 <= i < read@.len() ==> Ok::<Seq<u8>, Seq<char>>(
                            (#[trigger] work.peers@[i])@,
                        ) == reading(read@[i])
                },
                Err(e) => Some(e@) == subscribe_refusal(
                    self.overlay() is Some,
                    topic@.len(),
                    readings(read@),
                ),
            },
    {
        let ghost views = readings(read@);
        if topic.len() != TOPIC_LENGTH {
            return Err(FacadeError::InvalidTopic(topic.len()));
        }
        let mut peers: Vec<PeerId> = Vec::new();
        let mut i: usize = 0;
        while i < read.len()
            invariant
                i <= read@.len(),
                topic@.len() == TOPIC_LENGTH,
                views == readings(read@),
                first_unparsed(views, 0) == first_unparsed(views, i as int),
                peers@.len() == i,
                forall|j: int|
                    0 <= j < i ==> Ok::<Seq<u8>, Seq<char>>((#[trigger] peers@[j])@) == reading(
                        read@[j],
                    ),
            decreases read@.len() - i,
        {
            match &read[i] {
                Ok(peer) => {
                    peers.push(*peer);
                },
                Err(text) => {
                    return Err(FacadeError::InvalidPeerIdentifier(text.clone()));
                },
            }
            i += 1;
        }
        if self.gossip.is_none() {
            return Err(FacadeError::NotInitialized);
        }
        Ok(Subscription { topic: topic.clone(), peers })
    }

    /// First step of `subscribe`: reads the peer identifiers and decides as
    /// [`Self::subscribe_checked`] does.
    pub fn subscribe_logic(&self, topic: &Vec<u8>, peer_public_keys: &Vec<String>) -> (request:
        Result<Subscription, FacadeError>)
        ensures
            match request {
                Ok(work) => {
                    &&& subscribe_refusal(
                        self.overlay() is Some,
                        topic@.len(),
                        read_peers(peer_public_keys@),
                    ) is None
                    &&& work.topic@ == topic@
                    &&& work.peers@.len() == peer_public_keys@.len()
                    &&& forall|i: int|
                        0 <= i < peer_public_keys@.len() ==> Some((#[trigger] work.peers@[i])@)
                            == public_key_bytes(peer_public_keys@[i]@)
                },
                Err(e) => Some(e@) == subscribe_refusal(
                    self.overlay() is Some,
                    topic@.len(),
                    read_peers(peer_public_keys@),
                ),
            },
    {
        let read = parse_peers(peer_public_keys);
        let request = self.subscribe_checked(topic, &read);
        proof {
            if request is Ok {
                let peers = request->Ok_0.peers@;
                assert forall|i: int| 0 <= i < peer_public_keys@.len() implies Some(
                    (#[trigger] peers[i])@,
                ) == public_key_bytes(peer_public_keys@[i]@) by {
                    assert(readings(read@)[i] == read_peers(peer_public_keys@)[i]);
                }
            }
        }
        request
    }

    /// Last step of `subscribe`: the two ends of the subscription are kept
    /// together; an overlay failure becomes `SubscribeFailed` and leaves the
    /// facade as it was.
    pub fn subscribe(&mut self, outcome: Result<(S, R), String>) -> (subscribed: Result<
        (),
        FacadeError,
    >)
        ensures
            final(self).overlay() == old(self).overlay(),
            match outcome {
                Ok(ends) => subscribed is Ok && final(self).sender_end() == Some(ends.0)
                    && final(self).receiver_end() == Some(ends.1),
                Err(detail) => {
                    &&& final(self).sender_end() == old(self).sender_end()
                    &&& final(self).receiver_end() == old(self).receiver_end()
                    &&& subscribed matches Err(e)
                    &&& e@ == FacadeErrorView::SubscribeFailed(detail@)
                },
            },
    {
        match outcome {
            Ok((sender, receiver)) => {
                self.sender = Some(sender);
                self.receiver = Some(receiver);
                Ok(())
            },
            Err(detail) => Err(FacadeError::SubscribeFailed(detail)),
        }
    }

    /// The overlay, or `NotInitialized` where it has not been started.
    pub fn get_gossip(&self) -> (overlay: Result<&G, FacadeError>)
        ensures
            match overlay {
                Ok(g) => self.overlay() == Some(*g),
                Err(e) => Some(e@) == prerequisite_refusal(self.overlay() is Some),
            },
    {
        match &self.gossip {
            Some(overlay) => Ok(overlay),
            None => Err(FacadeError::NotInitialized),
        }
    }

    /// The sending end of the subscription, or `NotInitialized` before `subscribe`.
    pub fn get_sender(&self) -> (end: Result<&S, FacadeError>)
        ensures
            match end {
                Ok(s) => self.sender_end() == Some(*s),
                Err(e) => Some(e@) == prerequisite_refusal(self.sender_end() is Some),
            },
    {
        match &self.sender {
            Some(sender) => Ok(sender),
            None => Err(FacadeError::NotInitialized),
        }
    }

    /// The receiving end of the subscription, or `NotInitialized` before `subscribe`.
    pub fn get_receiver(&self) -> (end: Result<&R, FacadeError>)
        ensures
            match end {
                Ok(r) => self.receiver_end() == Some(*r),
                Err(e) => Some(e@) == prerequisite_refusal(self.receiver_end() is Some),
            },
    {
        match &self.receiver {
            Some(receiver) => Ok(receiver),
            None => Err(FacadeError::NotInitialized),
        }
    }
}

} // verus!
