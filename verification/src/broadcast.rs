//! The supervision bus: one mailbox per actor, a link to the parent's
//! mailbox and a registry of the children's.

use vstd::prelude::*;
use futures::channel::mpsc::{UnboundedReceiver, UnboundedSender};
use futures::Stream;
use std::pin::Pin;
use std::task::{Context, Poll};

verus! {

/// The sending end of an unbounded channel; opaque to the verifier.
#[verifier::external_type_specification]
#[verifier::external_body]
#[verifier::reject_recursive_types(T)]
pub struct ExUnboundedSender<T>(UnboundedSender<T>);

/// The receiving end of an unbounded channel; opaque to the verifier.
#[verifier::external_type_specification]
#[verifier::external_body]
#[verifier::reject_recursive_types(T)]
pub struct ExUnboundedReceiver<T>(UnboundedReceiver<T>);

/// The context of an asynchronous task; opaque to the verifier.
#[verifier::external_type_specification]
#[verifier::external_body]
pub struct ExContext<'a>(Context<'a>);

/// The end of a mailbox that messages are put into.
pub type Sender = UnboundedSender<BastionMessage>;

/// The end of a mailbox that messages are taken from.
pub type Receiver = UnboundedReceiver<BastionMessage>;

/// A supervision message.
#[derive(Debug)]
pub enum BastionMessage {
    /// Terminate gracefully.
    PoisonPill,
    /// The actor with this id has exited normally.
    Dead { id: u128 },
    /// The actor with this id has exited abnormally.
    Faulted { id: u128 },
    /// A payload of the users' own.
    Message(Vec<u8>),
}

/// What a supervision message says.
pub enum MessageView {
    PoisonPill,
    Dead { id: u128 },
    Faulted { id: u128 },
    Message(Seq<u8>),
}

impl View for BastionMessage {
    type V = MessageView;

    open spec fn view(&self) -> MessageView {
        match *self {
            BastionMessage::PoisonPill => MessageView::PoisonPill,
            BastionMessage::Dead { id } => MessageView::Dead { id },
            BastionMessage::Faulted { id } => MessageView::Faulted { id },
            BastionMessage::Message(payload) => MessageView::Message(payload@),
        }
    }
}

impl BastionMessage {
    /// The message that asks for graceful termination.
    pub fn poison_pill() -> (m: Self)
        ensures
            m@ == MessageView::PoisonPill,
    {
        BastionMessage::PoisonPill
    }

    /// The message that reports a normal exit of actor `id`.
    pub fn dead(id: u128) -> (m: Self)
        ensures
            m@ == (MessageView::Dead { id }),
    {
        BastionMessage::Dead { id }
    }

    /// The message that reports an abnormal exit of actor `id`.
    pub fn faulted(id: u128) -> (m: Self)
        ensures
            m@ == (MessageView::Faulted { id }),
    {
        BastionMessage::Faulted { id }
    }

    /// The message that carries a user payload.
    pub fn msg(payload: Vec<u8>) -> (m: Self)
        ensures
            m@ == MessageView::Message(payload@),
    {
        BastionMessage::Message(payload)
    }

    /// Whether this is the poison pill.
    pub fn is_poison_pill(&self) -> (b: bool)
        ensures
            b == (self@ is PoisonPill),
    {
        match self {
            BastionMessage::PoisonPill => true,
            _ => false,
        }
    }

    /// Whether this reports a normal exit.
    pub fn is_dead(&self) -> (b: bool)
        ensures
            b == (self@ is Dead),
    {
        match self {
            BastionMessage::Dead { .. } => true,
            _ => false,
        }
    }

    /// Whether this reports an abnormal exit.
    pub fn is_faulted(&self) -> (b: bool)
        ensures
            b == (self@ is Faulted),
    {
        match self {
            BastionMessage::Faulted { .. } => true,
            _ => false,
        }
    }

    /// Whether this carries a user payload.
    pub fn is_msg(&self) -> (b: bool)
        ensures
            b == (self@ is Message),
    {
        match self {
            BastionMessage::Message(_) => true,
            _ => false,
        }
    }
}

impl Clone for BastionMessage {
    /// A copy that says the same.
    fn clone(&self) -> (m: Self)
        ensures
            m@ == self@,
    {
        match self {
            BastionMessage::PoisonPill => BastionMessage::poison_pill(),
            BastionMessage::Dead { id } => BastionMessage::dead(*id),
            BastionMessage::Faulted { id } => BastionMessage::faulted(*id),
            BastionMessage::Message(payload) => {
                let copy = payload.clone();
                assert(copy@ =~= payload@);
                BastionMessage::msg(copy)
            },
        }
    }
}

/// Where a message was sent.
pub enum Target {
    Parent,
    Child(u128),
}

/// One message handed to a channel.
pub struct Delivery {
    pub to: Target,
    pub msg: MessageView,
}

/// The registry of child mailboxes, keyed by child id. It wraps the hash map
/// `fxhash::FxHashMap<u128, Sender>`, which the verifier does not look into.
#[verifier::external_body]
pub struct Children {
    map: fxhash::FxHashMap<u128, Sender>,
}

/// The ids under which a registry holds a mailbox.
pub uninterp spec fn child_ids(c: Children) -> Set<u128>;

impl Children {
    /// `FxHashMap::default`: a map without entries.
    #[verifier::external_body]
    fn new() -> (c: Children)
        ensures
            child_ids(c) == Set::<u128>::empty(),
    {
        Children { map: fxhash::FxHashMap::default() }
    }

    /// `HashMap::insert`: afterwards the map holds an entry under `id`, and
    /// the other keys are as before. An entry that was there is replaced.
    #[verifier::external_body]
    fn insert(&mut self, id: u128, sender: Sender)
        ensures
            child_ids(*final(self)) == child_ids(*old(self)).insert(id),
    {
        self.map.insert(id, sender);
    }

    /// `HashMap::remove`: the entry under `id` leaves the map and its
    /// mailbox is handed out, if there was one.
    #[verifier::external_body]
    fn remove(&mut self, id: u128) -> (gone: Option<Sender>)
        ensures
            gone.is_some() == child_ids(*old(self)).contains(id),
            child_ids(*final(self)) == child_ids(*old(self)).remove(id),
    {
        self.map.remove(&id)
    }

    /// `HashMap::clear`: no entry is left.
    #[verifier::external_body]
    fn clear(&mut self)
        ensures
            child_ids(*final(self)) == Set::<u128>::empty(),
    {
        self.map.clear();
    }

    /// `HashMap::get`: the mailbox under `id`, if the map has that key.
    #[verifier::external_body]
    fn get(&self, id: u128) -> (sender: Option<&Sender>)
        ensures
            sender.is_some() == child_ids(*self).contains(id),
    {
        self.map.get(&id)
    }

    /// `HashMap::keys`: every key of the map once, in the order in which the
    /// map happens to be walked.
    #[verifier::external_body]
    fn ids(&self) -> (ids: Vec<u128>)
        ensures
            ids@.no_duplicates(),
            ids@.to_set() == child_ids(*self),
    {
        self.map.keys().copied().collect()
    }
}

/// `futures::channel::mpsc::unbounded`: the two ends of a new channel.
#[verifier::external_body]
fn channel() -> (ends: (Sender, Receiver)) {
    futures::channel::mpsc::unbounded()
}

/// `UnboundedSender::clone`: another sending end of the same channel. The
/// channel counts its senders and gives up only when there are more of them
/// than memory can hold.
#[verifier::external_body]
fn clone_sender(sender: &Sender) -> (copy: Sender) {
    sender.clone()
}

/// `UnboundedSender::unbounded_send`: puts the message into the channel. The
/// result tells whether the channel took it; whether it does depends on the
/// receiving end, so nothing is claimed of it. The channel counts its
/// messages and gives up only when there are more of them than memory can
/// hold.
#[verifier::external_body]
fn send(sender: &Sender, msg: BastionMessage) -> (accepted: bool) {
    sender.unbounded_send(msg).is_ok()
}

/// `UnboundedReceiver::try_recv`: the next message that is waiting in the
/// channel, without blocking; none if the channel is empty or closed.
#[verifier::external_body]
fn try_recv(recver: &mut Receiver) -> (msg: Option<BastionMessage>) {
    recver.try_recv().ok()
}

/// What a mailbox answers when it is polled.
#[derive(Debug)]
pub enum Incoming {
    /// Nothing is waiting; the caller is woken when something arrives.
    Pending,
    /// Nothing is waiting and nothing can arrive any more.
    Closed,
    /// The message that waited longest.
    Message(BastionMessage),
}

/// `Stream::poll_next` of `UnboundedReceiver`: the next message of the
/// channel, or the news that it is empty for now or for good. Which one
/// depends on the sending ends, so nothing is claimed of it.
#[verifier::external_body]
fn poll_recv(recver: &mut Receiver, ctx: &mut Context<'_>) -> (next: Incoming) {
    match Pin::new(recver).poll_next(ctx) {
        Poll::Pending => Incoming::Pending,
        Poll::Ready(None) => Incoming::Closed,
        Poll::Ready(Some(msg)) => Incoming::Message(msg),
    }
}

/// `tail` hands `m` to each of `children` exactly once and to nobody else.
pub open spec fn fan_out(tail: Seq<Delivery>, children: Set<u128>, m: MessageView) -> bool {
    &&& forall|i: int|
        0 <= i < tail.len() ==> (#[trigger] tail[i]).msg == m && tail[i].to is Child
            && children.contains(tail[i].to->Child_0)
    &&& forall|i: int, j: int|
        0 <= i < j < tail.len() ==> (#[trigger] tail[i]).to != (#[trigger] tail[j]).to
    &&& forall|id: u128| #[trigger]
        children.contains(id) ==> tail.contains(Delivery { to: Target::Child(id), msg: m })
}

/// What `send_parent` adds to the record of deliveries.
pub open spec fn to_parent(has_parent: bool, m: MessageView) -> Seq<Delivery> {
    if has_parent {
        seq![Delivery { to: Target::Parent, msg: m }]
    } else {
        Seq::empty()
    }
}

/// The mailbox of one actor, with its place in the supervision tree.
pub struct Broadcast {
    id: u128,
    sender: Sender,
    recver: Receiver,
    parent: Option<Sender>,
    children: Children,
    handed: Ghost<Seq<Delivery>>,
}

impl Broadcast {
    /// The actor's id.
    pub closed spec fn spec_id(&self) -> u128 {
        self.id
    }

    /// The sending end of the actor's own mailbox.
    pub closed spec fn own_sender(&self) -> Sender {
        self.sender
    }

    /// The sending end of the parent's mailbox, if the actor has a parent.
    pub closed spec fn parent_link(&self) -> Option<Sender> {
        self.parent
    }

    /// Whether the actor has a parent to report to.
    pub open spec fn has_parent(&self) -> bool {
        self.parent_link() is Some
    }

    /// The ids of the registered children.
    pub closed spec fn children(&self) -> Set<u128> {
        child_ids(self.children)
    }

    /// Every message that this bus has handed to a channel, oldest first.
    pub closed spec fn handed(&self) -> Seq<Delivery> {
        self.handed@
    }

    /// A bus without a parent.
    pub fn new(id: u128) -> (bus: Self)
        ensures
            bus.spec_id() == id,
            bus.parent_link() is None,
            bus.children() == Set::<u128>::empty(),
            bus.handed() == Seq::<Delivery>::empty(),
    {
        let (sender, recver) = channel();
        Broadcast {
            id,
            parent: None,
            sender,
            recver,
            children: Children::new(),
            handed: Ghost(Seq::empty()),
        }
    }

    /// A bus that reports to `parent`.
    pub fn with_parent(id: u128, parent: Sender) -> (bus: Self)
        ensures
            bus.spec_id() == id,
            bus.parent_link() == Some(parent),
            bus.children() == Set::<u128>::empty(),
            bus.handed() == Seq::<Delivery>::empty(),
    {
        let (sender, recver) = channel();
        Broadcast {
            id,
            parent: Some(parent),
            sender,
            recver,
            children: Children::new(),
            handed: Ghost(Seq::empty()),
        }
    }

    /// The actor's id.
    pub fn id(&self) -> (id: &u128)
        ensures
            *id == self.spec_id(),
    {
        &self.id
    }

    /// The sending end of this bus's own mailbox.
    pub fn sender(&self) -> (s: &Sender)
        ensures
            *s == self.own_sender(),
    {
        &self.sender
    }

    /// Sends the poison pill to child `id`, if registered, and forgets it.
    pub fn poison_pill_child(&mut self, id: &u128)
        ensures
            final(self).spec_id() == old(self).spec_id(),
            final(self).parent_link() == old(self).parent_link(),
            final(self).own_sender() == old(self).own_sender(),
            final(self).children() == old(self).children().remove(*id),
            final(self).handed() == old(self).handed() + (if old(self).children().contains(*id) {
                seq![Delivery { to: Target::Child(*id), msg: MessageView::PoisonPill }]
            } else {
                Seq::empty()
            }),
    {
        self.send_child(id, BastionMessage::PoisonPill);
        self.remove_child(id);
    }

    /// Sends the poison pill to every child and forgets them all.
    pub fn poison_pill_children(&mut self)
        ensures
            final(self).spec_id() == old(self).spec_id(),
            final(self).parent_link() == old(self).parent_link(),
            final(self).own_sender() == old(self).own_sender(),
            final(self).children() == Set::<u128>::empty(),
            exists|tail: Seq<Delivery>|
                {
                    &&& #[trigger] fan_out(tail, old(self).children(), MessageView::PoisonPill)
                    &&& final(self).handed() == old(self).handed() + tail
                },
    {
        self.send_children(BastionMessage::PoisonPill);
        self.clear_children();
    }

    /// The actor exits normally: every child gets the poison pill and is
    /// forgotten, and only then the parent is told that this actor is dead.
    pub fn dead(&mut self)
        ensures
            final(self).spec_id() == old(self).spec_id(),
            final(self).parent_link() == old(self).parent_link(),
            final(self).own_sender() == old(self).own_sender(),
            final(self).children() == Set::<u128>::empty(),
            exists|tail: Seq<Delivery>|
                {
                    &&& #[trigger] fan_out(tail, old(self).children(), MessageView::PoisonPill)
                    &&& final(self).handed() == old(self).handed() + tail + to_parent(
                        old(self).has_parent(),
                        MessageView::Dead { id: old(self).spec_id() },
                    )
                },
    {
        self.poison_pill_children();
        let id = self.id;
        self.send_parent(BastionMessage::dead(id));
    }

    /// The actor exits abnormally: every child gets the poison pill and is
    /// forgotten, and only then the parent is told that this actor has faulted.
    pub fn faulted(&mut self)
        ensures
            final(self).spec_id() == old(self).spec_id(),
            final(self).parent_link() == old(self).parent_link(),
            final(self).own_sender() == old(self).own_sender(),
            final(self).children() == Set::<u128>::empty(),
            exists|tail: Seq<Delivery>|
                {
                    &&& #[trigger] fan_out(tail, old(self).children(), MessageView::PoisonPill)
                    &&& final(self).handed() == old(self).handed() + tail + to_parent(
                        old(self).has_parent(),
                        MessageView::Faulted { id: old(self).spec_id() },
                    )
                },
    {
        self.poison_pill_children();
        let id = self.id;
        self.send_parent(BastionMessage::faulted(id));
    }

    /// Makes a bus for a new child `id` that reports to this one, and
    /// registers the child's mailbox under its id.
    pub fn new_child(&mut self, id: u128) -> (child: Self)
        ensures
            final(self).spec_id() == old(self).spec_id(),
            final(self).parent_link() == old(self).parent_link(),
            final(self).own_sender() == old(self).own_sender(),
            final(self).handed() == old(self).handed(),
            final(self).children() == old(self).children().insert(id),
            child.spec_id() == id,
            child.has_parent(),
            child.children() == Set::<u128>::empty(),
            child.handed() == Seq::<Delivery>::empty(),
    {
        let child = Broadcast::with_parent(id, clone_sender(&self.sender));
        self.children.insert(child.id, clone_sender(&child.sender));
        child
    }

    /// Forgets child `id`; says whether it was registered.
    pub fn remove_child(&mut self, id: &u128) -> (found: bool)
        ensures
            final(self).spec_id() == old(self).spec_id(),
            final(self).parent_link() == old(self).parent_link(),
            final(self).own_sender() == old(self).own_sender(),
            final(self).handed() == old(self).handed(),
            final(self).children() == old(self).children().remove(*id),
            found == old(self).children().contains(*id),
    {
        self.children.remove(*id).is_some()
    }

    /// Forgets every child.
    pub fn clear_children(&mut self)
        ensures
            final(self).spec_id() == old(self).spec_id(),
            final(self).parent_link() == old(self).parent_link(),
            final(self).own_sender() == old(self).own_sender(),
            final(self).handed() == old(self).handed(),
            final(self).children() == Set::<u128>::empty(),
    {
        self.children.clear();
    }

    /// Hands `msg` to the parent's mailbox, if there is a parent. A mailbox
    /// that no longer takes messages is passed over in silence.
    pub fn send_parent(&mut self, msg: BastionMessage)
        ensures
            final(self).spec_id() == old(self).spec_id(),
            final(self).parent_link() == old(self).parent_link(),
            final(self).own_sender() == old(self).own_sender(),
            final(self).children() == old(self).children(),
            final(self).handed() == old(self).handed() + to_parent(old(self).has_parent(), msg@),
    {
        if let Some(parent) = &self.parent {
            let _ = send(parent, msg);
            self.handed = Ghost(self.handed@.push(Delivery { to: Target::Parent, msg: msg@ }));
            assert(self.handed@ =~= old(self).handed@ + to_parent(true, msg@));
        } else {
            assert(self.handed@ =~= old(self).handed@ + to_parent(false, msg@));
        }
    }

    /// Hands `msg` to the mailbox of child `id`, if registered. A mailbox
    /// that no longer takes messages is passed over in silence.
    pub fn send_child(&mut self, id: &u128, msg: BastionMessage)
        ensures
            final(self).spec_id() == old(self).spec_id(),
            final(self).parent_link() == old(self).parent_link(),
            final(self).own_sender() == old(self).own_sender(),
            final(self).children() == old(self).children(),
            final(self).handed() == old(self).handed() + (if old(self).children().contains(*id) {
                seq![Delivery { to: Target::Child(*id), msg: msg@ }]
            } else {
                Seq::empty()
            }),
    {
        if let Some(child) = self.children.get(*id) {
            let _ = send(child, msg);
            self.handed = Ghost(self.handed@.push(Delivery { to: Target::Child(*id), msg: msg@ }));
            assert(self.handed@ =~= old(self).handed@ + seq![
                Delivery { to: Target::Child(*id), msg: msg@ },
            ]);
        } else {
            assert(self.handed@ =~= old(self).handed@ + Seq::<Delivery>::empty());
        }
    }

    /// Hands a copy of `msg` to the mailbox of each child, once. A mailbox
    /// that no longer takes messages is passed over and the others are
    /// still served.
    pub fn send_children(&mut self, msg: BastionMessage)
        ensures
            final(self).spec_id() == old(self).spec_id(),
            final(self).parent_link() == old(self).parent_link(),
            final(self).own_sender() == old(self).own_sender(),
            final(self).children() == old(self).children(),
            exists|tail: Seq<Delivery>|
                {
                    &&& #[trigger] fan_out(tail, old(self).children(), msg@)
                    &&& final(self).handed() == old(self).handed() + tail
                },
    {
        let ids = self.children.ids();
        let ghost m = msg@;
        let mut i: usize = 0;
        while i < ids.len()
            invariant
                0 <= i <= ids.len(),
                m == msg@,
                ids@.no_duplicates(),
                ids@.to_set() == child_ids(self.children),
                self.children == old(self).children,
                self.id == old(self).id,
                self.parent == old(self).parent,
                self.sender == old(self).sender,
                self.handed@ == old(self).handed@ + Seq::new(
                    i as nat,
                    |k: int| Delivery { to: Target::Child(ids@[k]), msg: m },
                ),
            decreases ids.len() - i,
        {
            let id = ids[i];
            assert(ids@.to_set().contains(ids@[i as int]));
            if let Some(child) = self.children.get(id) {
                let _ = send(child, msg.clone());
                self.handed = Ghost(self.handed@.push(Delivery { to: Target::Child(id), msg: m }));
            } else {
                assert(false);
            }
            i += 1;
            assert(self.handed@ =~= old(self).handed@ + Seq::new(
                i as nat,
                |k: int| Delivery { to: Target::Child(ids@[k]), msg: m },
            ));
        }
        proof {
            let tail = Seq::new(
                ids@.len(),
                |k: int| Delivery { to: Target::Child(ids@[k]), msg: m },
            );
            let kids = old(self).children();
            assert forall|i: int| 0 <= i < tail.len() implies (#[trigger] tail[i]).msg == m
                && tail[i].to is Child && kids.contains(tail[i].to->Child_0) by {
                assert(ids@.to_set().contains(ids@[i]));
            }
            assert forall|id: u128| #[trigger] kids.contains(id) implies tail.contains(
                Delivery { to: Target::Child(id), msg: m },
            ) by {
                assert(ids@.contains(id));
                let k = choose|k: int| 0 <= k < ids@.len() && ids@[k] == id;
                assert(tail[k] == Delivery { to: Target::Child(id), msg: m });
            }
            assert(fan_out(tail, kids, m));
        }
    }

    /// Polls this bus's mailbox on behalf of the task behind `ctx`.
    pub fn poll_next(&mut self, ctx: &mut Context<'_>) -> (next: Incoming)
        ensures
            final(self).spec_id() == old(self).spec_id(),
            final(self).parent_link() == old(self).parent_link(),
            final(self).own_sender() == old(self).own_sender(),
            final(self).children() == old(self).children(),
            final(self).handed() == old(self).handed(),
    {
        poll_recv(&mut self.recver, ctx)
    }

    /// Takes the next message that is waiting in this bus's mailbox, if any.
    pub fn try_next(&mut self) -> (msg: Option<BastionMessage>)
        ensures
            final(self).spec_id() == old(self).spec_id(),
            final(self).parent_link() == old(self).parent_link(),
            final(self).own_sender() == old(self).own_sender(),
            final(self).children() == old(self).children(),
            final(self).handed() == old(self).handed(),
    {
        try_recv(&mut self.recver)
    }
}

} // verus!
