//! The decision core of the network system: the table of connected peers,
//! where a message goes, how received datagrams and messages change the table
//! and what they ask of the game.

use vstd::prelude::*;
use crate::systems::net::message::accepts;
use crate::systems::net::message::message_id_of;
use crate::systems::net::message::GameTask;
use crate::systems::net::message::Message;
use crate::systems::net::message::MessageReceiver;
use crate::systems::net::message::NetworkTask;
use crate::systems::net::message::PeerAddress;

verus! {

/// How long, in milliseconds, the network waits before it sends the
/// unacknowledged messages again.
pub const MESSAGE_RESEND_INTERVAL_MS: u64 = 400;

/// A connected peer, as the network system keeps it.
#[derive(Clone, Copy, Debug, PartialEq, Eq, Structural)]
pub struct Connection {
    /// The address of the peer.
    pub address: PeerAddress,
    /// The public id of the actor that the peer controls, once the game
    /// attached one.
    pub attached_public_id: Option<u16>,
}

/// No two connections of `table` share an address.
pub open spec fn unique_addresses(table: Seq<Connection>) -> bool {
    forall|i: int, j: int|
        0 <= i < j < table.len() ==> (#[trigger] table[i]).address != (#[trigger] table[j]).address
}

/// Some connection of `table` has this address.
pub open spec fn has_address(table: Seq<Connection>, address: PeerAddress) -> bool {
    exists|i: int| 0 <= i < table.len() && (#[trigger] table[i]).address == address
}

/// The public id attached to the peer at `address`, if it is connected and
/// has one.
pub open spec fn public_id_in(table: Seq<Connection>, address: PeerAddress) -> Option<u16> {
    if has_address(table, address) {
        table[choose|i: int| 0 <= i < table.len() && (#[trigger] table[i]).address == address].attached_public_id
    } else {
        None
    }
}

/// The addresses of the connections of `table` that `receiver` takes in, in
/// table order.
pub open spec fn recipients_of(table: Seq<Connection>, receiver: MessageReceiver) -> Seq<PeerAddress>
    decreases table.len(),
{
    if table.len() == 0 {
        Seq::empty()
    } else {
        recipients_of(table.drop_last(), receiver) + if accepts(receiver, table.last().address) {
            seq![table.last().address]
        } else {
            Seq::empty()
        }
    }
}

/// The message `message`, addressed to each recipient of `receiver` in turn.
pub open spec fn deliveries_of<F>(
    table: Seq<Connection>,
    receiver: MessageReceiver,
    message: Message<F>,
) -> Seq<(PeerAddress, Message<F>)> {
    recipients_of(table, receiver).map_values(|a: PeerAddress| (a, message))
}

/// The connections of `table` whose address is not in `gone`, in order.
pub open spec fn without_addresses(table: Seq<Connection>, gone: Seq<PeerAddress>) -> Seq<Connection>
    decreases table.len(),
{
    if table.len() == 0 {
        Seq::empty()
    } else {
        without_addresses(table.drop_last(), gone) + if gone.contains(table.last().address) {
            Seq::empty()
        } else {
            seq![table.last()]
        }
    }
}

/// The deliveries of a list of outgoing messages, one message after the other.
pub open spec fn outgoing_of<F>(
    table: Seq<Connection>,
    messages: Seq<(MessageReceiver, Message<F>)>,
) -> Seq<(PeerAddress, Message<F>)>
    decreases messages.len(),
{
    if messages.len() == 0 {
        Seq::empty()
    } else {
        outgoing_of(table, messages.drop_last()) + deliveries_of(
            table,
            messages.last().0,
            messages.last().1,
        )
    }
}

/// Whether the unacknowledged messages are due to be sent again at `now`,
/// when they were last sent at `last`.
pub open spec fn resend_due(last: u64, now: u64) -> bool {
    now >= last && now - last >= MESSAGE_RESEND_INTERVAL_MS
}

/// The public id that the last task of `tasks` for `address` attaches, if any.
pub open spec fn last_attached(tasks: Seq<NetworkTask>, address: PeerAddress) -> Option<u16>
    decreases tasks.len(),
{
    if tasks.len() == 0 {
        None
    } else {
        match tasks.last() {
            NetworkTask::AttachPublicId(a, id) => if a == address {
                Some(id)
            } else {
                last_attached(tasks.drop_last(), address)
            },
        }
    }
}

/// The table after the network tasks `tasks`: each connected peer holds the
/// public id that the last task for it attached, or its old one.
pub open spec fn attached_after(table: Seq<Connection>, tasks: Seq<NetworkTask>) -> Seq<Connection> {
    table.map_values(|c: Connection| Connection {
        address: c.address,
        attached_public_id: match last_attached(tasks, c.address) {
            Some(id) => Some(id),
            None => c.attached_public_id,
        },
    })
}

/// The table with the peer at `address` added at the end, unless it is there.
pub open spec fn with_peer(table: Seq<Connection>, address: PeerAddress) -> Seq<Connection> {
    if has_address(table, address) {
        table
    } else {
        table.push(Connection { address, attached_public_id: None })
    }
}

/// What a received datagram amounts to.
#[derive(Debug, PartialEq)]
pub enum Datagram<F> {
    /// It could not be read as a message: the peer is dropped.
    Corrupted { error: String },
    /// It acknowledges the message with id `message_id`.
    Acknowledgement { message_id: u16 },
    /// It holds `message`; `reply` acknowledges it, where it asks for that.
    Delivery { reply: Option<Message<F>>, message: Message<F> },
}

/// A received datagram, and whether its sender was not connected before.
#[derive(Debug, PartialEq)]
pub struct Received<F> {
    pub new_peer: bool,
    pub datagram: Datagram<F>,
}

/// What a datagram that was read as `decoded` amounts to.
pub open spec fn datagram_of<F>(decoded: Result<Message<F>, String>) -> Datagram<F> {
    match decoded {
        Err(error) => Datagram::Corrupted { error },
        Ok(message) => match message {
            Message::Response { message_id } => Datagram::Acknowledgement { message_id },
            _ => Datagram::Delivery {
                reply: match message_id_of(message) {
                    Some(id) => Some(Message::Response { message_id: id }),
                    None => None,
                },
                message,
            },
        },
    }
}

/// The table after a datagram from `address` that was read as `decoded`.
pub open spec fn table_after_datagram<F>(
    table: Seq<Connection>,
    address: PeerAddress,
    decoded: Result<Message<F>, String>,
) -> Seq<Connection> {
    match decoded {
        Err(_) => without_addresses(table, seq![address]),
        Ok(_) => with_peer(table, address),
    }
}

/// The task that the server makes of `message` from the peer at `address`,
/// which controls the actor `public_id`.
pub open spec fn server_task<F>(address: PeerAddress, message: Message<F>, public_id: Option<u16>) -> Option<GameTask<F>> {
    match message {
        Message::Greeting { .. } => Some(GameTask::PlayerConnect(address)),
        Message::ActorAction { move_x, move_y, angle, .. } => match public_id {
            Some(p) => Some(GameTask::ActorAction { public_id: p, move_x, move_y, angle }),
            None => None,
        },
        _ => None,
    }
}

/// The message that the server passes on to every peer for `message` from a
/// peer that controls the actor `public_id`.
pub open spec fn server_echo<F>(message: Message<F>, public_id: Option<u16>) -> Option<Message<F>> {
    match message {
        Message::ActorAction { move_x, move_y, angle, .. } => match public_id {
            Some(p) => Some(Message::ActorAction { id: 0, public_id: p, move_x, move_y, angle }),
            None => None,
        },
        _ => None,
    }
}

/// The task that a client makes of `message` from the server.
pub open spec fn client_task<F>(message: Message<F>) -> Option<GameTask<F>> {
    match message {
        Message::ActorSpawn { public_id, x, y, angle, .. } => Some(GameTask::ActorSpawn { public_id, x, y, angle }),
        Message::ActorGrant { public_id, .. } => Some(GameTask::ActorGrant(public_id)),
        Message::ActorAction { public_id, move_x, move_y, angle, .. } => Some(
            GameTask::ActorAction { public_id, move_x, move_y, angle },
        ),
        Message::TransformSync { public_id, x, y, .. } => Some(GameTask::TransformSync { public_id, x, y }),
        _ => None,
    }
}

/// The sequence that holds the value of `o`, if any.
pub open spec fn seq_of<T>(o: Option<T>) -> Seq<T> {
    match o {
        Some(v) => seq![v],
        None => Seq::empty(),
    }
}

/// The tasks that `message` from the peer at `address` makes.
pub open spec fn tasks_of<F>(
    is_server: bool,
    address: PeerAddress,
    message: Message<F>,
    public_id: Option<u16>,
) -> Seq<GameTask<F>> {
    if is_server {
        seq_of(server_task(address, message, public_id))
    } else {
        seq_of(client_task(message))
    }
}

/// The messages that `message` from a peer makes the network send.
pub open spec fn echoes_of<F>(
    is_server: bool,
    table: Seq<Connection>,
    message: Message<F>,
    public_id: Option<u16>,
) -> Seq<(PeerAddress, Message<F>)> {
    if is_server {
        match server_echo(message, public_id) {
            Some(e) => deliveries_of(table, MessageReceiver::Every, e),
            None => Seq::empty(),
        }
    } else {
        Seq::empty()
    }
}

/// The tasks that the messages `messages` from the peer at `address` make.
pub open spec fn dispatched_tasks<F>(
    is_server: bool,
    address: PeerAddress,
    messages: Seq<Message<F>>,
    public_id: Option<u16>,
) -> Seq<GameTask<F>>
    decreases messages.len(),
{
    if messages.len() == 0 {
        Seq::empty()
    } else {
        dispatched_tasks(is_server, address, messages.drop_last(), public_id) + tasks_of(
            is_server,
            address,
            messages.last(),
            public_id,
        )
    }
}

/// The messages that the messages `messages` from a peer make the network send.
pub open spec fn dispatched_echoes<F>(
    is_server: bool,
    table: Seq<Connection>,
    messages: Seq<Message<F>>,
    public_id: Option<u16>,
) -> Seq<(PeerAddress, Message<F>)>
    decreases messages.len(),
{
    if messages.len() == 0 {
        Seq::empty()
    } else {
        dispatched_echoes(is_server, table, messages.drop_last(), public_id) + echoes_of(
            is_server,
            table,
            messages.last(),
            public_id,
        )
    }
}

/// What the network hands on for a message: tasks for the game, and messages
/// addressed to peers.
#[derive(Debug, PartialEq)]
pub struct Reaction<F> {
    pub tasks: Vec<GameTask<F>>,
    pub deliveries: Vec<(PeerAddress, Message<F>)>,
}

/// The connections kept when the peers at the addresses in `gone` leave are
/// connections of `table` whose address is not in `gone`; they keep their
/// addresses apart, and every other connected peer stays.
pub proof fn lemma_without_addresses(table: Seq<Connection>, gone: Seq<PeerAddress>)
    ensures
        forall|k: int|
            0 <= k < without_addresses(table, gone).len() ==> table.contains(
                #[trigger] without_addresses(table, gone)[k],
            ) && !gone.contains(without_addresses(table, gone)[k].address),
        forall|a: PeerAddress|
            #[trigger] has_address(without_addresses(table, gone), a) <==> has_address(table, a)
                && !gone.contains(a),
        unique_addresses(table) ==> unique_addresses(without_addresses(table, gone)),
    decreases table.len(),
{
    let r = without_addresses(table, gone);
    if table.len() > 0 {
        let init = table.drop_last();
        lemma_without_addresses(init, gone);
        let ri = without_addresses(init, gone);
        assert forall|k: int| 0 <= k < r.len() implies table.contains(#[trigger] r[k]) && !gone.contains(
            r[k].address,
        ) by {
            if k < ri.len() {
                assert(r[k] == ri[k]);
                let m = choose|m: int| 0 <= m < init.len() && init[m] == ri[k];
                assert(table[m] == init[m]);
            } else {
                assert(r[k] == table.last());
                assert(table[table.len() - 1] == table.last());
            }
        }
        assert forall|a: PeerAddress| #[trigger] has_address(r, a) <==> has_address(table, a) && !gone.contains(a) by {
            if has_address(r, a) {
                let k = choose|k: int| 0 <= k < r.len() && (#[trigger] r[k]).address == a;
                let m = choose|m: int| 0 <= m < table.len() && table[m] == r[k];
                assert(table[m].address == a);
            }
            if has_address(table, a) && !gone.contains(a) {
                let m = choose|m: int| 0 <= m < table.len() && (#[trigger] table[m]).address == a;
                if m < init.len() {
                    assert(init[m] == table[m]);
                    assert(has_address(init, a));
                    assert(has_address(ri, a));
                    let k = choose|k: int| 0 <= k < ri.len() && (#[trigger] ri[k]).address == a;
                    assert(r[k] == ri[k]);
                } else {
                    assert(r[r.len() - 1] == table.last());
                }
            }
        }
        if unique_addresses(table) {
            assert(unique_addresses(init)) by {
                assert forall|i: int, j: int| 0 <= i < j < init.len() implies (#[trigger] init[i]).address != (
                #[trigger] init[j]).address by {
                    assert(init[i] == table[i] && init[j] == table[j]);
                }
            }
            assert forall|i: int, j: int| 0 <= i < j < r.len() implies (#[trigger] r[i]).address != (
            #[trigger] r[j]).address by {
                if j >= ri.len() {
                    assert(r[j] == table.last());
                    assert(r[i] == ri[i]);
                    let m = choose|m: int| 0 <= m < init.len() && init[m] == ri[i];
                    assert(table[m] == init[m]);
                    assert(table[table.len() - 1] == table.last());
                } else {
                    assert(r[i] == ri[i] && r[j] == ri[j]);
                }
            }
        }
    }
}

/// Whether `address` is in `list`.
fn address_listed(list: &Vec<PeerAddress>, address: PeerAddress) -> (r: bool)
    ensures
        r == list@.contains(address),
{
    let mut i: usize = 0;
    while i < list.len()
        invariant
            i <= list@.len(),
            forall|k: int| 0 <= k < i ==> list@[k] != address,
        decreases list@.len() - i,
    {
        if list[i] == address {
            return true;
        }
        i = i + 1;
    }
    false
}

/// Where the peer at `address` stands in `table`, if it is there.
fn position_in(table: &Vec<Connection>, address: PeerAddress) -> (r: Option<usize>)
    ensures
        r is None <==> !has_address(table@, address),
        r matches Some(i) ==> i < table@.len() && table@[i as int].address == address,
{
    let mut i: usize = 0;
    while i < table.len()
        invariant
            i <= table@.len(),
            forall|k: int| 0 <= k < i ==> (#[trigger] table@[k]).address != address,
        decreases table@.len() - i,
    {
        if table[i].address == address {
            return Some(i);
        }
        i = i + 1;
    }
    None
}

/// The decision core of the network system.
pub struct NetworkSystem {
    is_server: bool,
    connections: Vec<Connection>,
    last_message_resend: u64,
}

impl NetworkSystem {
    #[verifier::type_invariant]
    closed spec fn addresses_are_unique(&self) -> bool {
        unique_addresses(self.connections@)
    }

    /// The connected peers, in the order they connected.
    pub closed spec fn table(&self) -> Seq<Connection> {
        self.connections@
    }

    /// Whether this side is the server.
    pub closed spec fn serves(&self) -> bool {
        self.is_server
    }

    /// When, in milliseconds of the caller's clock, the unacknowledged
    /// messages were last sent again.
    pub closed spec fn last_resend(&self) -> u64 {
        self.last_message_resend
    }

    /// A network system with no peer yet; `now` is the caller's clock in
    /// milliseconds.
    pub fn new(is_server: bool, now: u64) -> (r: Self)
        ensures
            r.table() == Seq::<Connection>::empty(),
            r.serves() == is_server,
            r.last_resend() == now,
    {
        NetworkSystem { is_server, connections: Vec::new(), last_message_resend: now }
    }

    /// Whether this side is the server.
    pub fn is_server(&self) -> (r: bool)
        ensures
            r == self.serves(),
    {
        self.is_server
    }

    /// The connected peers, in the order they connected.
    pub fn connections(&self) -> (r: Vec<Connection>)
        ensures
            r@ == self.table(),
            unique_addresses(self.table()),
    {
        proof {
            use_type_invariant(self);
        }
        self.connections.clone()
    }

    /// Where the peer at `address` stands in the table, if it is connected.
    fn position_of(&self, address: PeerAddress) -> (r: Option<usize>)
        ensures
            r is None <==> !has_address(self.table(), address),
            r matches Some(i) ==> i < self.table().len() && self.table()[i as int].address == address,
    {
        position_in(&self.connections, address)
    }

    /// Whether the peer at `address` is connected.
    pub fn is_connected(&self, address: PeerAddress) -> (r: bool)
        ensures
            r == has_address(self.table(), address),
    {
        self.position_of(address).is_some()
    }

    /// The public id attached to the peer at `address`.
    pub fn public_id_of(&self, address: PeerAddress) -> (r: Option<u16>)
        ensures
            r == public_id_in(self.table(), address),
    {
        proof {
            use_type_invariant(self);
        }
        match self.position_of(address) {
            Some(i) => {
                let ghost t = self.table();
                let ghost c = choose|k: int| 0 <= k < t.len() && (#[trigger] t[k]).address == address;
                assert(c == i as int);
                self.connections[i].attached_public_id
            },
            None => None,
        }
    }

    /// The peers that `receiver` takes in, in table order.
    pub fn recipients(&self, receiver: MessageReceiver) -> (r: Vec<PeerAddress>)
        ensures
            r@ == recipients_of(self.table(), receiver),
    {
        let mut r: Vec<PeerAddress> = Vec::new();
        let mut i: usize = 0;
        while i < self.connections.len()
            invariant
                i <= self.connections@.len(),
                r@ == recipients_of(self.connections@.take(i as int), receiver),
            decreases self.connections@.len() - i,
        {
            let address = self.connections[i].address;
            let take = match receiver {
                MessageReceiver::Only(a) => address == a,
                MessageReceiver::Every => true,
                MessageReceiver::Except(a) => address != a,
            };
            if take {
                r.push(address);
            }
            assert(self.connections@.take(i + 1).drop_last() == self.connections@.take(i as int));
            i = i + 1;
        }
        assert(self.connections@.take(i as int) == self.connections@);
        r
    }

    /// The message `message`, addressed to each peer that `receiver` takes
    /// in; the caller hands each to the connection of its address.
    pub fn send<F: Copy>(&self, receiver: MessageReceiver, message: Message<F>) -> (r: Vec<(PeerAddress, Message<F>)>)
        ensures
            r@ == deliveries_of(self.table(), receiver, message),
    {
        let to = self.recipients(receiver);
        let mut r: Vec<(PeerAddress, Message<F>)> = Vec::new();
        let mut i: usize = 0;
        while i < to.len()
            invariant
                i <= to@.len(),
                to@ == recipients_of(self.table(), receiver),
                r@ == to@.take(i as int).map_values(|a: PeerAddress| (a, message)),
            decreases to@.len() - i,
        {
            r.push((to[i], message));
            assert(to@.take(i + 1) == to@.take(i as int).push(to@[i as int]));
            assert(r@ =~= to@.take(i + 1).map_values(|a: PeerAddress| (a, message)));
            i = i + 1;
        }
        assert(to@.take(i as int) == to@);
        r
    }

    /// A network system of a server with no peer yet.
    pub fn new_as_server(now: u64) -> (r: Self)
        ensures
            r.table() == Seq::<Connection>::empty(),
            r.serves(),
            r.last_resend() == now,
    {
        Self::new(true, now)
    }

    /// A network system of a client whose one peer is the server at
    /// `server_address`, with the greeting addressed to it.
    pub fn new_as_client<F: Copy>(server_address: PeerAddress, now: u64) -> (r: (Self, Vec<(PeerAddress, Message<F>)>))
        ensures
            r.0.table() == seq![Connection { address: server_address, attached_public_id: None }],
            !r.0.serves(),
            r.0.last_resend() == now,
            r.1@ == seq![(server_address, Message::<F>::Greeting { id: 0 })],
    {
        let mut connections: Vec<Connection> = Vec::new();
        connections.push(Connection { address: server_address, attached_public_id: None });
        let network = NetworkSystem { is_server: false, connections, last_message_resend: now };
        let greeting = network.send(MessageReceiver::Every, Message::Greeting { id: 0 });
        proof {
            let t = network.table();
            assert(t.drop_last() == Seq::<Connection>::empty());
            reveal_with_fuel(recipients_of, 2);
            assert(recipients_of(t, MessageReceiver::Every) =~= seq![server_address]);
        }
        (network, greeting)
    }

    /// The deliveries of the outgoing messages, one message after the other.
    pub fn send_outgoing_messages<F: Copy>(&self, messages: Vec<(MessageReceiver, Message<F>)>) -> (r: Vec<(PeerAddress, Message<F>)>)
        ensures
            r@ == outgoing_of(self.table(), messages@),
    {
        let mut r: Vec<(PeerAddress, Message<F>)> = Vec::new();
        let mut i: usize = 0;
        while i < messages.len()
            invariant
                i <= messages@.len(),
                r@ == outgoing_of(self.table(), messages@.take(i as int)),
            decreases messages@.len() - i,
        {
            let (receiver, message) = messages[i];
            let mut sent = self.send(receiver, message);
            r.append(&mut sent);
            assert(messages@.take(i + 1).drop_last() == messages@.take(i as int));
            i = i + 1;
        }
        assert(messages@.take(i as int) == messages@);
        r
    }

    /// Whether the unacknowledged messages are due to be sent again at
    /// `now`; when they are, `now` becomes the time of the last resend.
    pub fn take_resend_due(&mut self, now: u64) -> (r: bool)
        ensures
            r == resend_due(old(self).last_resend(), now),
            final(self).last_resend() == if r { now } else { old(self).last_resend() },
            final(self).table() == old(self).table(),
            unique_addresses(final(self).table()),
            final(self).serves() == old(self).serves(),
    {
        proof {
            use_type_invariant(&*self);
        }
        if now >= self.last_message_resend && now - self.last_message_resend >= MESSAGE_RESEND_INTERVAL_MS {
            self.last_message_resend = now;
            true
        } else {
            false
        }
    }

    /// The tasks and messages that `message` from the peer at `address`,
    /// which controls the actor `public_id`, makes on a server.
    pub fn on_message_as_server<F: Copy>(&self, address: PeerAddress, message: &Message<F>, public_id: Option<u16>) -> (r: Reaction<F>)
        ensures
            r.tasks@ == seq_of(server_task(address, *message, public_id)),
            r.deliveries@ == echoes_of(true, self.table(), *message, public_id),
    {
        let mut tasks: Vec<GameTask<F>> = Vec::new();
        let mut deliveries: Vec<(PeerAddress, Message<F>)> = Vec::new();
        match *message {
            Message::Greeting { .. } => {
                tasks.push(GameTask::PlayerConnect(address));
            },
            Message::ActorAction { move_x, move_y, angle, .. } => {
                if let Some(public_id) = public_id {
                    tasks.push(GameTask::ActorAction { public_id, move_x, move_y, angle });
                    deliveries = self.send(
                        MessageReceiver::Every,
                        Message::ActorAction { id: 0, public_id, move_x, move_y, angle },
                    );
                }
            },
            _ => {},
        }
        Reaction { tasks, deliveries }
    }

    /// The tasks that `message` from the server makes on a client.
    pub fn on_message_as_client<F: Copy>(&self, message: &Message<F>) -> (r: Vec<GameTask<F>>)
        ensures
            r@ == seq_of(client_task(*message)),
            r@.len() <= 1,
            (message is Greeting || message is Response) ==> r@.len() == 0,
    {
        let mut tasks: Vec<GameTask<F>> = Vec::new();
        match *message {
            Message::ActorSpawn { public_id, x, y, angle, .. } => {
                tasks.push(GameTask::ActorSpawn { public_id, x, y, angle });
            },
            Message::ActorGrant { public_id, .. } => {
                tasks.push(GameTask::ActorGrant(public_id));
            },
            Message::ActorAction { public_id, move_x, move_y, angle, .. } => {
                tasks.push(GameTask::ActorAction { public_id, move_x, move_y, angle });
            },
            Message::TransformSync { public_id, x, y, .. } => {
                tasks.push(GameTask::TransformSync { public_id, x, y });
            },
            _ => {},
        }
        tasks
    }

    /// The tasks and messages that `message` from the peer at `address`,
    /// which controls the actor `public_id`, makes.
    pub fn on_message<F: Copy>(&self, address: PeerAddress, message: &Message<F>, public_id: Option<u16>) -> (r: Reaction<F>)
        ensures
            r.tasks@ == tasks_of(self.serves(), address, *message, public_id),
            r.deliveries@ == echoes_of(self.serves(), self.table(), *message, public_id),
    {
        if self.is_server {
            self.on_message_as_server(address, message, public_id)
        } else {
            Reaction { tasks: self.on_message_as_client(message), deliveries: Vec::new() }
        }
    }

    /// The tasks and messages that the messages `messages` from the peer at
    /// `address` make, one after the other, each with the public id that the
    /// peer holds now.
    pub fn dispatch<F: Copy>(&self, address: PeerAddress, messages: &Vec<Message<F>>) -> (r: Reaction<F>)
        ensures
            r.tasks@ == dispatched_tasks(self.serves(), address, messages@, public_id_in(self.table(), address)),
            r.deliveries@ == dispatched_echoes(self.serves(), self.table(), messages@, public_id_in(self.table(), address)),
    {
        let public_id = self.public_id_of(address);
        let mut tasks: Vec<GameTask<F>> = Vec::new();
        let mut deliveries: Vec<(PeerAddress, Message<F>)> = Vec::new();
        let mut i: usize = 0;
        while i < messages.len()
            invariant
                i <= messages@.len(),
                public_id == public_id_in(self.table(), address),
                tasks@ == dispatched_tasks(self.serves(), address, messages@.take(i as int), public_id),
                deliveries@ == dispatched_echoes(self.serves(), self.table(), messages@.take(i as int), public_id),
            decreases messages@.len() - i,
        {
            let mut reaction = self.on_message(address, &messages[i], public_id);
            tasks.append(&mut reaction.tasks);
            deliveries.append(&mut reaction.deliveries);
            assert(messages@.take(i + 1).drop_last() == messages@.take(i as int));
            i = i + 1;
        }
        assert(messages@.take(i as int) == messages@);
        Reaction { tasks, deliveries }
    }

    /// The peers at the addresses of `gone` leave the table; the others stay
    /// in their order.
    pub fn remove_disconnected(&mut self, gone: &Vec<PeerAddress>)
        ensures
            final(self).table() == without_addresses(old(self).table(), gone@),
            unique_addresses(final(self).table()),
            final(self).serves() == old(self).serves(),
            final(self).last_resend() == old(self).last_resend(),
    {
        proof {
            use_type_invariant(&*self);
        }
        let mut kept: Vec<Connection> = Vec::new();
        let mut i: usize = 0;
        while i < self.connections.len()
            invariant
                i <= self.connections@.len(),
                kept@ == without_addresses(self.connections@.take(i as int), gone@),
            decreases self.connections@.len() - i,
        {
            let c = self.connections[i];
            if !address_listed(gone, c.address) {
                kept.push(c);
            }
            assert(self.connections@.take(i + 1).drop_last() == self.connections@.take(i as int));
            i = i + 1;
        }
        assert(self.connections@.take(i as int) == self.connections@);
        proof {
            lemma_without_addresses(self.connections@, gone@);
        }
        self.connections = kept;
    }

    /// Applies the network tasks in order: a task for a connected peer
    /// attaches its public id to the peer; one for another address does
    /// nothing.
    pub fn process_incoming_tasks(&mut self, tasks: Vec<NetworkTask>)
        ensures
            final(self).table() == attached_after(old(self).table(), tasks@),
            unique_addresses(final(self).table()),
            final(self).serves() == old(self).serves(),
            final(self).last_resend() == old(self).last_resend(),
    {
        proof {
            use_type_invariant(&*self);
        }
        let ghost start = self.connections@;
        let mut table = self.connections();
        let mut k: usize = 0;
        while k < tasks.len()
            invariant
                k <= tasks@.len(),
                start == self.connections@,
                unique_addresses(start),
                table@ == attached_after(start, tasks@.take(k as int)),
            decreases tasks@.len() - k,
        {
            let ghost before = table@;
            let ghost done = tasks@.take(k as int);
            let ghost next = tasks@.take(k + 1);
            assert(next.drop_last() == done);
            match tasks[k] {
                NetworkTask::AttachPublicId(address, public_id) => {
                    match position_in(&table, address) {
                        Some(i) => {
                            let c = table[i];
                            table.set(i, Connection { address: c.address, attached_public_id: Some(public_id) });
                            proof {
                                assert forall|m: int| 0 <= m < start.len() implies #[trigger] table@[m]
                                    == attached_after(start, next)[m] by {
                                    if m != i {
                                        assert(before[m].address == start[m].address);
                                        assert(start[m].address != start[i as int].address);
                                    }
                                }
                                assert(table@ =~= attached_after(start, next));
                            }
                        },
                        None => {
                            proof {
                                assert forall|m: int| 0 <= m < start.len() implies #[trigger] table@[m]
                                    == attached_after(start, next)[m] by {
                                    assert(before[m].address == start[m].address);
                                    assert(before[m].address != address);
                                }
                                assert(table@ =~= attached_after(start, next));
                            }
                        },
                    }
                },
            }
            k = k + 1;
        }
        assert(tasks@.take(k as int) == tasks@);
        proof {
            let t = table@;
            assert forall|i: int, j: int| 0 <= i < j < t.len() implies (#[trigger] t[i]).address != (
            #[trigger] t[j]).address by {
                assert(t[i].address == start[i].address && t[j].address == start[j].address);
            }
        }
        self.connections = table;
    }

    /// Takes in a datagram from `address` that was read as `decoded`: a
    /// datagram that could not be read drops the peer; one that could makes
    /// sure the peer is connected.
    pub fn receive<F: Copy>(&mut self, address: PeerAddress, decoded: Result<Message<F>, String>) -> (r: Received<F>)
        ensures
            r.new_peer == !has_address(old(self).table(), address),
            r.datagram == datagram_of(decoded),
            final(self).table() == table_after_datagram(old(self).table(), address, decoded),
            unique_addresses(final(self).table()),
            final(self).serves() == old(self).serves(),
            final(self).last_resend() == old(self).last_resend(),
    {
        proof {
            use_type_invariant(&*self);
        }
        let new_peer = !self.is_connected(address);
        match decoded {
            Err(error) => {
                let mut gone: Vec<PeerAddress> = Vec::new();
                gone.push(address);
                self.remove_disconnected(&gone);
                Received { new_peer, datagram: Datagram::Corrupted { error } }
            },
            Ok(message) => {
                if new_peer {
                    let mut table = self.connections();
                    table.push(Connection { address, attached_public_id: None });
                    proof {
                        let t = table@;
                        assert forall|i: int, j: int| 0 <= i < j < t.len() implies (#[trigger] t[i]).address
                            != (#[trigger] t[j]).address by {
                            if j == t.len() - 1 {
                                assert(self.connections@[i] == t[i]);
                            } else {
                                assert(self.connections@[i] == t[i] && self.connections@[j] == t[j]);
                            }
                        }
                    }
                    self.connections = table;
                }
                let datagram = match message {
                    Message::Response { message_id } => Datagram::Acknowledgement { message_id },
                    _ => Datagram::Delivery {
                        reply: match message.get_id() {
                            Some(id) => Some(Message::Response { message_id: id }),
                            None => None,
                        },
                        message,
                    },
                };
                Received { new_peer, datagram }
            },
        }
    }

    /// The first steps of one run of the network system: the deliveries of
    /// the outgoing messages, then whether the unacknowledged messages are
    /// due to be sent again at `now`. The caller sends both, and then asks
    /// each connection whether it is disconnected.
    pub fn begin_run<F: Copy>(&mut self, messages: Vec<(MessageReceiver, Message<F>)>, now: u64) -> (r: (
        Vec<(PeerAddress, Message<F>)>,
        bool,
    ))
        ensures
            r.0@ == outgoing_of(old(self).table(), messages@),
            r.1 == resend_due(old(self).last_resend(), now),
            final(self).last_resend() == if r.1 { now } else { old(self).last_resend() },
            final(self).table() == old(self).table(),
            unique_addresses(final(self).table()),
            final(self).serves() == old(self).serves(),
    {
        let deliveries = self.send_outgoing_messages(messages);
        let resend = self.take_resend_due(now);
        (deliveries, resend)
    }

    /// The last steps of one run before datagrams are taken in: the peers
    /// whose connections reported a disconnection leave, then the network
    /// tasks are applied. The caller then takes in each datagram with
    /// `receive` and hands what it delivers to `dispatch`.
    pub fn end_run(&mut self, disconnected: &Vec<PeerAddress>, tasks: Vec<NetworkTask>)
        ensures
            final(self).table() == attached_after(without_addresses(old(self).table(), disconnected@), tasks@),
            unique_addresses(final(self).table()),
            final(self).serves() == old(self).serves(),
            final(self).last_resend() == old(self).last_resend(),
    {
        self.remove_disconnected(disconnected);
        self.process_incoming_tasks(tasks);
    }
}

} // verus!

verus! {

/// A peer is among the recipients of `receiver` exactly when it is connected
/// and `receiver` takes it in.
pub proof fn lemma_recipients_members(table: Seq<Connection>, receiver: MessageReceiver, address: PeerAddress)
    ensures
        recipients_of(table, receiver).contains(address) <==> has_address(table, address) && accepts(
            receiver,
            address,
        ),
    decreases table.len(),
{
    if table.len() > 0 {
        let init = table.drop_last();
        lemma_recipients_members(init, receiver, address);
        let ri = recipients_of(init, receiver);
        let r = recipients_of(table, receiver);
        if r.contains(address) {
            let k = choose|k: int| 0 <= k < r.len() && r[k] == address;
            if k < ri.len() {
                assert(ri[k] == r[k]);
                assert(ri.contains(address));
                let m = choose|m: int| 0 <= m < init.len() && (#[trigger] init[m]).address == address;
                assert(table[m] == init[m]);
            } else {
                assert(table[table.len() - 1] == table.last());
            }
        }
        if has_address(table, address) && accepts(receiver, address) {
            let m = choose|m: int| 0 <= m < table.len() && (#[trigger] table[m]).address == address;
            if m < init.len() {
                assert(init[m] == table[m]);
                assert(has_address(init, address));
                let k = choose|k: int| 0 <= k < ri.len() && ri[k] == address;
                assert(r[k] == ri[k]);
            } else {
                assert(r[r.len() - 1] == address);
            }
        }
    }
}

/// Every connected peer receives a message sent to every peer, once, in
/// table order.
pub proof fn lemma_recipients_every(table: Seq<Connection>)
    ensures
        recipients_of(table, MessageReceiver::Every) == table.map_values(|c: Connection| c.address),
    decreases table.len(),
{
    if table.len() > 0 {
        lemma_recipients_every(table.drop_last());
        assert(table.map_values(|c: Connection| c.address) =~= table.drop_last().map_values(
            |c: Connection| c.address,
        ).push(table.last().address));
    } else {
        assert(table.map_values(|c: Connection| c.address) =~= Seq::<PeerAddress>::empty());
    }
}

/// A message for one peer goes to that peer alone, and to nobody when the
/// peer is not connected.
pub proof fn lemma_recipients_only(table: Seq<Connection>, address: PeerAddress)
    requires
        unique_addresses(table),
    ensures
        recipients_of(table, MessageReceiver::Only(address)) == if has_address(table, address) {
            seq![address]
        } else {
            Seq::<PeerAddress>::empty()
        },
    decreases table.len(),
{
    if table.len() > 0 {
        let init = table.drop_last();
        assert(unique_addresses(init)) by {
            assert forall|i: int, j: int| 0 <= i < j < init.len() implies (#[trigger] init[i]).address != (
            #[trigger] init[j]).address by {
                assert(init[i] == table[i] && init[j] == table[j]);
            }
        }
        lemma_recipients_only(init, address);
        if table.last().address == address {
            assert(!has_address(init, address)) by {
                if has_address(init, address) {
                    let m = choose|m: int| 0 <= m < init.len() && (#[trigger] init[m]).address == address;
                    assert(table[m] == init[m]);
                    assert(table[table.len() - 1] == table.last());
                }
            }
            assert(has_address(table, address)) by {
                assert(table[table.len() - 1] == table.last());
            }
            assert(recipients_of(table, MessageReceiver::Only(address)) =~= seq![address]);
        } else {
            assert(has_address(table, address) == has_address(init, address)) by {
                if has_address(table, address) {
                    let m = choose|m: int| 0 <= m < table.len() && (#[trigger] table[m]).address == address;
                    assert(m < init.len());
                    assert(init[m] == table[m]);
                }
                if has_address(init, address) {
                    let m = choose|m: int| 0 <= m < init.len() && (#[trigger] init[m]).address == address;
                    assert(init[m] == table[m]);
                }
            }
            assert(recipients_of(table, MessageReceiver::Only(address)) =~= recipients_of(
                init,
                MessageReceiver::Only(address),
            ));
        }
    }
}

/// A message sent to every peer but one never reaches that one.
pub proof fn lemma_except_skips(table: Seq<Connection>, address: PeerAddress)
    ensures
        !recipients_of(table, MessageReceiver::Except(address)).contains(address),
{
    lemma_recipients_members(table, MessageReceiver::Except(address), address);
}

/// Every change of the table keeps the addresses of its peers apart.
pub proof fn lemma_changes_keep_addresses_unique(
    table: Seq<Connection>,
    address: PeerAddress,
    tasks: Seq<NetworkTask>,
    gone: Seq<PeerAddress>,
)
    requires
        unique_addresses(table),
    ensures
        unique_addresses(with_peer(table, address)),
        unique_addresses(attached_after(table, tasks)),
        unique_addresses(without_addresses(table, gone)),
{
    lemma_without_addresses(table, gone);
    let w = with_peer(table, address);
    if !has_address(table, address) {
        assert forall|i: int, j: int| 0 <= i < j < w.len() implies (#[trigger] w[i]).address != (
        #[trigger] w[j]).address by {
            assert(w[i] == table[i]);
            if j < table.len() {
                assert(w[j] == table[j]);
            }
        }
    }
    let t = attached_after(table, tasks);
    assert forall|i: int, j: int| 0 <= i < j < t.len() implies (#[trigger] t[i]).address != (
    #[trigger] t[j]).address by {
        assert(t[i].address == table[i].address && t[j].address == table[j].address);
    }
}

/// A datagram that can be read connects its sender; one that cannot
/// disconnects it. Every other peer stays as it was.
pub proof fn lemma_datagram_connects_sender<F>(
    table: Seq<Connection>,
    address: PeerAddress,
    decoded: Result<Message<F>, String>,
    other: PeerAddress,
)
    requires
        other != address,
    ensures
        has_address(table_after_datagram(table, address, decoded), address) <==> decoded is Ok,
        has_address(table_after_datagram(table, address, decoded), other) <==> has_address(table, other),
{
    let gone = seq![address];
    lemma_without_addresses(table, gone);
    assert(gone.contains(address)) by {
        assert(gone[0] == address);
    }
    assert(!gone.contains(other)) by {
        if gone.contains(other) {
            let k = choose|k: int| 0 <= k < gone.len() && gone[k] == other;
            assert(gone[k] == address);
        }
    }
    assert(has_address(without_addresses(table, gone), address) <==> has_address(table, address)
        && !gone.contains(address));
    assert(has_address(without_addresses(table, gone), other) <==> has_address(table, other)
        && !gone.contains(other));
    let pushed = table.push(Connection { address, attached_public_id: None });
    assert(pushed[table.len() as int].address == address);
    if has_address(table, other) {
        let m = choose|m: int| 0 <= m < table.len() && (#[trigger] table[m]).address == other;
        assert(pushed[m] == table[m]);
    }
    if has_address(pushed, other) {
        let m = choose|m: int| 0 <= m < pushed.len() && (#[trigger] pushed[m]).address == other;
        assert(m < table.len());
        assert(pushed[m] == table[m]);
    }
}

/// After the network tasks, a connected peer holds the public id of the last
/// task for it, and keeps its old one when no task was for it.
pub proof fn lemma_attach_sets_public_id(table: Seq<Connection>, tasks: Seq<NetworkTask>, address: PeerAddress)
    requires
        unique_addresses(table),
    ensures
        has_address(attached_after(table, tasks), address) == has_address(table, address),
        public_id_in(attached_after(table, tasks), address) == if has_address(table, address) {
            match last_attached(tasks, address) {
                Some(id) => Some(id),
                None => public_id_in(table, address),
            }
        } else {
            None
        },
{
    let t = attached_after(table, tasks);
    lemma_changes_keep_addresses_unique(table, address, tasks, Seq::empty());
    if has_address(table, address) {
        let m = choose|m: int| 0 <= m < table.len() && (#[trigger] table[m]).address == address;
        assert(t[m].address == address);
        assert(has_address(t, address));
        let c = choose|i: int| 0 <= i < t.len() && (#[trigger] t[i]).address == address;
        assert(t[c].address == table[c].address);
        assert(c == m);
    }
    if has_address(t, address) {
        let c = choose|i: int| 0 <= i < t.len() && (#[trigger] t[i]).address == address;
        assert(t[c].address == table[c].address);
    }
}

/// The server passes on an actor's action with the values of the task it
/// hands to the game, and only for a peer that controls an actor; a client
/// passes nothing on.
pub proof fn lemma_server_echo_matches_task<F>(
    address: PeerAddress,
    message: Message<F>,
    public_id: Option<u16>,
    table: Seq<Connection>,
)
    ensures
        server_echo(message, public_id) is Some ==> public_id is Some,
        match server_echo(message, public_id) {
            Some(Message::ActorAction { id, public_id: p, move_x, move_y, angle }) => id == 0 && server_task(
                address,
                message,
                public_id,
            ) == Some(GameTask::ActorAction { public_id: p, move_x, move_y, angle }),
            Some(_) => false,
            None => true,
        },
        echoes_of(false, table, message, public_id) == Seq::<(PeerAddress, Message<F>)>::empty(),
{
}

/// Right after the messages were sent again, they are not due again.
pub proof fn lemma_resend_not_due_at_once(now: u64)
    ensures
        !resend_due(now, now),
{
}

} // verus!

verus! {

/// The table after the datagrams `stream` were taken in, one after the other.
pub open spec fn table_after_datagrams<F>(
    table: Seq<Connection>,
    stream: Seq<(PeerAddress, Result<Message<F>, String>)>,
) -> Seq<Connection>
    decreases stream.len(),
{
    if stream.len() == 0 {
        table
    } else {
        table_after_datagram(
            table_after_datagrams(table, stream.drop_last()),
            stream.last().0,
            stream.last().1,
        )
    }
}

/// Whether the last datagram from `address` in `stream` could be read, if
/// `address` sent any.
pub open spec fn last_read_from<F>(
    stream: Seq<(PeerAddress, Result<Message<F>, String>)>,
    address: PeerAddress,
) -> Option<bool>
    decreases stream.len(),
{
    if stream.len() == 0 {
        None
    } else if stream.last().0 == address {
        Some(stream.last().1 is Ok)
    } else {
        last_read_from(stream.drop_last(), address)
    }
}

/// After a stream of datagrams, a peer that sent none is connected exactly
/// when it was before; a peer that sent some is connected exactly when its
/// last datagram could be read.
pub proof fn lemma_datagram_stream_membership<F>(
    table: Seq<Connection>,
    stream: Seq<(PeerAddress, Result<Message<F>, String>)>,
    address: PeerAddress,
)
    ensures
        has_address(table_after_datagrams(table, stream), address) == match last_read_from(stream, address) {
            None => has_address(table, address),
            Some(read) => read,
        },
    decreases stream.len(),
{
    if stream.len() > 0 {
        let init = stream.drop_last();
        let (sender, decoded) = stream.last();
        lemma_datagram_stream_membership(table, init, address);
        let before = table_after_datagrams(table, init);
        if sender == address {
            lemma_datagram_connects_sender(before, sender, decoded, PeerAddress {
                is_ipv6: !address.is_ipv6,
                ..address
            });
        } else {
            lemma_datagram_connects_sender(before, sender, decoded, address);
        }
    }
}

/// A client turns a message from the server into at most one task, into
/// none for a greeting or a response, and sends nothing for it.
pub proof fn lemma_client_message_effects<F>(
    table: Seq<Connection>,
    address: PeerAddress,
    message: Message<F>,
    public_id: Option<u16>,
)
    ensures
        tasks_of(false, address, message, public_id).len() <= 1,
        (message is Greeting || message is Response) ==> tasks_of(false, address, message, public_id).len() == 0,
        echoes_of(false, table, message, public_id) == Seq::<(PeerAddress, Message<F>)>::empty(),
{
}

} // verus!

verus! {

/// Every readable datagram other than a response is a delivery of its message
/// with a reply that acknowledges the id that the message carries; a response
/// acknowledges the message whose id it holds; an unreadable datagram is
/// corrupted, with its error.
pub proof fn lemma_datagrams_are_acknowledged<F>(message: Message<F>, error: String)
    ensures
        datagram_of(Err::<Message<F>, String>(error)) == (Datagram::<F>::Corrupted { error }),
        message is Response ==> datagram_of(Ok::<Message<F>, String>(message))
            == (Datagram::<F>::Acknowledgement { message_id: message->message_id }),
        message is Greeting ==> datagram_of(Ok::<Message<F>, String>(message)) == (Datagram::Delivery {
            reply: Some(Message::<F>::Response { message_id: message->Greeting_id }),
            message,
        }),
        message is ActorSpawn ==> datagram_of(Ok::<Message<F>, String>(message)) == (Datagram::Delivery {
            reply: Some(Message::<F>::Response { message_id: message->ActorSpawn_id }),
            message,
        }),
        message is ActorGrant ==> datagram_of(Ok::<Message<F>, String>(message)) == (Datagram::Delivery {
            reply: Some(Message::<F>::Response { message_id: message->ActorGrant_id }),
            message,
        }),
        message is ActorAction ==> datagram_of(Ok::<Message<F>, String>(message)) == (Datagram::Delivery {
            reply: Some(Message::<F>::Response { message_id: message->ActorAction_id }),
            message,
        }),
        message is TransformSync ==> datagram_of(Ok::<Message<F>, String>(message)) == (Datagram::Delivery {
            reply: Some(Message::<F>::Response { message_id: message->TransformSync_id }),
            message,
        }),
{
}

/// The public id that a batch of network tasks attaches to `address` is that
/// of the last task of the batch for `address`, whatever tasks for other
/// addresses follow it; with no task for `address`, it attaches none.
pub proof fn lemma_last_attached_is_last_task(tasks: Seq<NetworkTask>, address: PeerAddress)
    ensures
        (forall|k: int| 0 <= k < tasks.len() ==> (#[trigger] tasks[k])->0 != address) ==> (last_attached(
            tasks,
            address,
        ) is None),
        forall|k: int|
            #![trigger tasks[k]]
            0 <= k < tasks.len() && tasks[k]->0 == address && (forall|j: int|
                k < j < tasks.len() ==> (#[trigger] tasks[j])->0 != address) ==> last_attached(tasks, address)
                == Some(tasks[k]->1),
    decreases tasks.len(),
{
    if tasks.len() > 0 {
        let init = tasks.drop_last();
        lemma_last_attached_is_last_task(init, address);
        assert forall|k: int| 0 <= k < init.len() implies #[trigger] init[k] == tasks[k] by {}
        if forall|k: int| 0 <= k < tasks.len() ==> (#[trigger] tasks[k])->0 != address {
            assert(tasks[tasks.len() - 1]->0 != address);
            assert forall|k: int| 0 <= k < init.len() implies (#[trigger] init[k])->0 != address by {
                assert(tasks[k]->0 != address);
            }
        }
        assert forall|k: int|
            #![trigger tasks[k]]
            0 <= k < tasks.len() && tasks[k]->0 == address && (forall|j: int|
                k < j < tasks.len() ==> (#[trigger] tasks[j])->0 != address) implies last_attached(tasks, address)
            == Some(tasks[k]->1) by {
            if k < tasks.len() - 1 {
                assert(tasks[tasks.len() - 1]->0 != address);
                assert(init[k] == tasks[k]);
                assert forall|j: int| k < j < init.len() implies (#[trigger] init[j])->0 != address by {
                    assert(init[j] == tasks[j]);
                    assert(tasks[j]->0 != address);
                }
            }
        }
    }
}

/// After a batch of network tasks, each connected peer holds the public id of
/// the last task of the batch for it, every task for another peer
/// notwithstanding.
pub proof fn lemma_each_peer_holds_its_last_task(
    table: Seq<Connection>,
    tasks: Seq<NetworkTask>,
    k: int,
)
    requires
        unique_addresses(table),
        0 <= k < tasks.len(),
        has_address(table, tasks[k]->0),
        forall|j: int| k < j < tasks.len() ==> (#[trigger] tasks[j])->0 != tasks[k]->0,
    ensures
        public_id_in(attached_after(table, tasks), tasks[k]->0) == Some(tasks[k]->1),
{
    lemma_last_attached_is_last_task(tasks, tasks[k]->0);
    lemma_attach_sets_public_id(table, tasks, tasks[k]->0);
}

/// Handling a batch of messages is handling its two halves one after the
/// other, each message with the same public id, and handling one message is
/// what `on_message` does with it.
pub proof fn lemma_dispatch_splits<F>(
    is_server: bool,
    table: Seq<Connection>,
    address: PeerAddress,
    first: Seq<Message<F>>,
    second: Seq<Message<F>>,
    public_id: Option<u16>,
)
    ensures
        dispatched_tasks(is_server, address, first + second, public_id) == dispatched_tasks(
            is_server,
            address,
            first,
            public_id,
        ) + dispatched_tasks(is_server, address, second, public_id),
        dispatched_echoes(is_server, table, first + second, public_id) == dispatched_echoes(
            is_server,
            table,
            first,
            public_id,
        ) + dispatched_echoes(is_server, table, second, public_id),
        second.len() == 1 ==> dispatched_tasks(is_server, address, second, public_id) == tasks_of(
            is_server,
            address,
            second[0],
            public_id,
        ),
        second.len() == 1 ==> dispatched_echoes(is_server, table, second, public_id) == echoes_of(
            is_server,
            table,
            second[0],
            public_id,
        ),
    decreases second.len(),
{
    if second.len() == 1 {
        assert(second.drop_last() == Seq::<Message<F>>::empty());
        assert(second.last() == second[0]);
        assert(dispatched_echoes(is_server, table, second.drop_last(), public_id) == Seq::<
            (PeerAddress, Message<F>),
        >::empty());
        assert(dispatched_tasks(is_server, address, second, public_id) =~= tasks_of(
            is_server,
            address,
            second[0],
            public_id,
        ));
        assert(dispatched_echoes(is_server, table, second, public_id) =~= echoes_of(
            is_server,
            table,
            second[0],
            public_id,
        ));
    }
    if second.len() == 0 {
        assert(first + second == first);
        assert(dispatched_tasks(is_server, address, first, public_id) + Seq::<GameTask<F>>::empty()
            == dispatched_tasks(is_server, address, first, public_id));
        assert(dispatched_echoes(is_server, table, first, public_id) + Seq::<(PeerAddress, Message<F>)>::empty()
            == dispatched_echoes(is_server, table, first, public_id));
    } else {
        let init = second.drop_last();
        lemma_dispatch_splits(is_server, table, address, first, init, public_id);
        assert((first + second).drop_last() == first + init);
        assert((first + second).last() == second.last());
        assert(dispatched_tasks(is_server, address, first + second, public_id) =~= dispatched_tasks(
            is_server,
            address,
            first,
            public_id,
        ) + dispatched_tasks(is_server, address, second, public_id));
        assert(dispatched_echoes(is_server, table, first + second, public_id) =~= dispatched_echoes(
            is_server,
            table,
            first,
            public_id,
        ) + dispatched_echoes(is_server, table, second, public_id));
    }
}

/// A batch of two messages is handled as each of them alone, with the public
/// id that the sender holds.
pub proof fn lemma_dispatch_pair<F>(
    is_server: bool,
    table: Seq<Connection>,
    address: PeerAddress,
    first: Message<F>,
    second: Message<F>,
    public_id: Option<u16>,
)
    ensures
        dispatched_tasks(is_server, address, seq![first, second], public_id) == tasks_of(
            is_server,
            address,
            first,
            public_id,
        ) + tasks_of(is_server, address, second, public_id),
        dispatched_echoes(is_server, table, seq![first, second], public_id) == echoes_of(
            is_server,
            table,
            first,
            public_id,
        ) + echoes_of(is_server, table, second, public_id),
{
    lemma_dispatch_splits(is_server, table, address, Seq::empty(), seq![first], public_id);
    lemma_dispatch_splits(is_server, table, address, seq![first], seq![second], public_id);
    assert(Seq::<Message<F>>::empty() + seq![first] == seq![first]);
    assert(seq![first] + seq![second] == seq![first, second]);
    assert(dispatched_tasks(is_server, address, Seq::<Message<F>>::empty(), public_id) + tasks_of(is_server, address, first, public_id)
        =~= tasks_of(is_server, address, first, public_id));
    assert(dispatched_echoes(is_server, table, Seq::<Message<F>>::empty(), public_id) + echoes_of(is_server, table, first, public_id)
        =~= echoes_of(is_server, table, first, public_id));
}

} // verus!
