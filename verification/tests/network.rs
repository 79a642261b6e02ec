use arena::systems::net::message::GameTask;
use arena::systems::net::message::Message;
use arena::systems::net::message::MessageReceiver;
use arena::systems::net::message::NetworkTask;
use arena::systems::net::message::PeerAddress;
use arena::systems::net::network::Connection;
use arena::systems::net::network::Datagram;
use arena::systems::net::network::NetworkSystem;

fn peer(port: u16) -> PeerAddress {
    PeerAddress { is_ipv6: false, ip: 0x7f00_0001, port, flowinfo: 0, scope_id: 0 }
}

fn action(id: u16, public_id: u16) -> Message<f32> {
    Message::ActorAction { id, public_id, move_x: 1.0, move_y: -0.5, angle: 0.25 }
}

fn server_with(ports: &[u16]) -> NetworkSystem {
    let mut network = NetworkSystem::new_as_server(0);
    for &p in ports {
        let received = network.receive(peer(p), Ok(Message::<f32>::Greeting { id: 1 }));
        assert!(received.new_peer);
    }
    network
}

fn addresses(network: &NetworkSystem) -> Vec<PeerAddress> {
    network.connections().iter().map(|c| c.address).collect()
}

#[test]
fn message_ids() {
    assert_eq!(Message::<f32>::Greeting { id: 3 }.get_id(), Some(3));
    assert_eq!(Message::<f32>::Response { message_id: 3 }.get_id(), None);
    assert_eq!(action(9, 1).get_id(), Some(9));
}

#[test]
fn client_greets_its_server() {
    let (network, greeting) = NetworkSystem::new_as_client::<f32>(peer(9000), 5);
    assert!(!network.is_server());
    assert_eq!(addresses(&network), vec![peer(9000)]);
    assert_eq!(greeting, vec![(peer(9000), Message::Greeting { id: 0 })]);
}

#[test]
fn recipients_follow_the_receiver() {
    let network = server_with(&[1, 2, 3]);
    assert_eq!(network.recipients(MessageReceiver::Every), vec![peer(1), peer(2), peer(3)]);
    assert_eq!(network.recipients(MessageReceiver::Only(peer(2))), vec![peer(2)]);
    assert_eq!(network.recipients(MessageReceiver::Only(peer(7))), vec![]);
    assert_eq!(network.recipients(MessageReceiver::Except(peer(2))), vec![peer(1), peer(3)]);
    assert_eq!(network.recipients(MessageReceiver::Except(peer(7))), vec![peer(1), peer(2), peer(3)]);
}

#[test]
fn outgoing_messages_go_out_in_order() {
    let network = server_with(&[1, 2]);
    let out = network.send_outgoing_messages(vec![
        (MessageReceiver::Except(peer(1)), action(0, 4)),
        (MessageReceiver::Every, Message::Greeting { id: 0 }),
    ]);
    assert_eq!(
        out,
        vec![
            (peer(2), action(0, 4)),
            (peer(1), Message::Greeting { id: 0 }),
            (peer(2), Message::Greeting { id: 0 }),
        ]
    );
}

#[test]
fn resend_is_due_after_the_interval() {
    let mut network = NetworkSystem::new_as_server(1000);
    assert!(!network.take_resend_due(1399));
    assert!(network.take_resend_due(1400));
    assert!(!network.take_resend_due(1400));
    assert!(!network.take_resend_due(1799));
    assert!(network.take_resend_due(1800));
    assert!(!network.take_resend_due(10));
}

#[test]
fn disconnected_peers_leave() {
    let mut network = server_with(&[1, 2, 3]);
    network.remove_disconnected(&vec![peer(2), peer(8)]);
    assert_eq!(addresses(&network), vec![peer(1), peer(3)]);
}

#[test]
fn attaching_a_public_id() {
    let mut network = server_with(&[1, 2]);
    network.process_incoming_tasks(vec![
        NetworkTask::AttachPublicId(peer(2), 10),
        NetworkTask::AttachPublicId(peer(5), 11),
        NetworkTask::AttachPublicId(peer(2), 12),
    ]);
    assert_eq!(network.public_id_of(peer(1)), None);
    assert_eq!(network.public_id_of(peer(2)), Some(12));
    assert_eq!(network.public_id_of(peer(5)), None);
    assert_eq!(addresses(&network), vec![peer(1), peer(2)]);
    assert_eq!(
        network.connections()[1],
        Connection { address: peer(2), attached_public_id: Some(12) }
    );
}

#[test]
fn corrupted_datagram_drops_the_peer() {
    let mut network = server_with(&[1, 2]);
    let received = network.receive::<f32>(peer(1), Err("bad".to_string()));
    assert!(!received.new_peer);
    assert_eq!(received.datagram, Datagram::Corrupted { error: "bad".to_string() });
    assert_eq!(addresses(&network), vec![peer(2)]);
    let received = network.receive::<f32>(peer(9), Err("worse".to_string()));
    assert!(received.new_peer);
    assert_eq!(addresses(&network), vec![peer(2)]);
}

#[test]
fn datagrams_connect_and_ask_for_replies() {
    let mut network = server_with(&[]);
    let received = network.receive(peer(4), Ok(action(6, 2)));
    assert!(received.new_peer);
    assert_eq!(
        received.datagram,
        Datagram::Delivery { reply: Some(Message::Response { message_id: 6 }), message: action(6, 2) }
    );
    let received = network.receive(peer(4), Ok(Message::<f32>::Response { message_id: 6 }));
    assert!(!received.new_peer);
    assert_eq!(received.datagram, Datagram::Acknowledgement { message_id: 6 });
    assert_eq!(addresses(&network), vec![peer(4)]);
}

#[test]
fn server_answers_greetings_and_actions() {
    let network = server_with(&[1, 2]);
    let r = network.on_message(peer(1), &Message::<f32>::Greeting { id: 3 }, None);
    assert_eq!(r.tasks, vec![GameTask::PlayerConnect(peer(1))]);
    assert!(r.deliveries.is_empty());
    let r = network.on_message(peer(1), &action(8, 99), Some(4));
    assert_eq!(
        r.tasks,
        vec![GameTask::ActorAction { public_id: 4, move_x: 1.0, move_y: -0.5, angle: 0.25 }]
    );
    assert_eq!(r.deliveries, vec![(peer(1), action(0, 4)), (peer(2), action(0, 4))]);
    let r = network.on_message(peer(1), &action(8, 99), None);
    assert!(r.tasks.is_empty());
    assert!(r.deliveries.is_empty());
    let r = network.on_message(peer(1), &Message::<f32>::ActorGrant { id: 1, public_id: 2 }, Some(4));
    assert!(r.tasks.is_empty());
    assert!(r.deliveries.is_empty());
}

#[test]
fn client_turns_messages_into_tasks() {
    let (network, _) = NetworkSystem::new_as_client::<f32>(peer(9000), 0);
    let r = network.on_message(
        peer(9000),
        &Message::ActorSpawn { id: 1, public_id: 3, x: 2.0, y: 3.0, angle: 0.5 },
        None,
    );
    assert_eq!(r.tasks, vec![GameTask::ActorSpawn { public_id: 3, x: 2.0, y: 3.0, angle: 0.5 }]);
    assert!(r.deliveries.is_empty());
    let r = network.on_message(peer(9000), &Message::<f32>::ActorGrant { id: 2, public_id: 3 }, None);
    assert_eq!(r.tasks, vec![GameTask::ActorGrant(3)]);
    let r = network.on_message(peer(9000), &action(3, 7), None);
    assert_eq!(
        r.tasks,
        vec![GameTask::ActorAction { public_id: 7, move_x: 1.0, move_y: -0.5, angle: 0.25 }]
    );
    assert!(r.deliveries.is_empty());
    let r = network.on_message(
        peer(9000),
        &Message::TransformSync { id: 4, public_id: 7, x: 1.5, y: 2.5 },
        None,
    );
    assert_eq!(r.tasks, vec![GameTask::TransformSync { public_id: 7, x: 1.5, y: 2.5 }]);
    let r = network.on_message(peer(9000), &Message::<f32>::Greeting { id: 5 }, None);
    assert!(r.tasks.is_empty());
}

#[test]
fn dispatch_uses_the_public_id_of_the_sender() {
    let mut network = server_with(&[1, 2]);
    network.process_incoming_tasks(vec![NetworkTask::AttachPublicId(peer(2), 5)]);
    let r = network.dispatch(peer(2), &vec![action(1, 0), Message::Greeting { id: 2 }]);
    assert_eq!(
        r.tasks,
        vec![
            GameTask::ActorAction { public_id: 5, move_x: 1.0, move_y: -0.5, angle: 0.25 },
            GameTask::PlayerConnect(peer(2)),
        ]
    );
    assert_eq!(r.deliveries, vec![(peer(1), action(0, 5)), (peer(2), action(0, 5))]);
    let r = network.dispatch(peer(1), &vec![action(1, 0)]);
    assert!(r.tasks.is_empty());
    assert!(r.deliveries.is_empty());
}

#[test]
fn one_run_sends_resends_drops_and_attaches_in_order() {
    let mut network = server_with(&[1, 2, 3]);
    let (deliveries, resend) = network.begin_run(vec![(MessageReceiver::Only(peer(2)), action(0, 1))], 500);
    assert_eq!(deliveries, vec![(peer(2), action(0, 1))]);
    assert!(resend);
    let (deliveries, resend) = network.begin_run::<f32>(vec![], 600);
    assert!(deliveries.is_empty());
    assert!(!resend);
    network.end_run(
        &vec![peer(2)],
        vec![NetworkTask::AttachPublicId(peer(2), 4), NetworkTask::AttachPublicId(peer(3), 5)],
    );
    assert_eq!(addresses(&network), vec![peer(1), peer(3)]);
    assert_eq!(network.public_id_of(peer(2)), None);
    assert_eq!(network.public_id_of(peer(3)), Some(5));
}

#[test]
fn a_stream_of_datagrams_follows_the_last_one_of_each_peer() {
    let mut network = server_with(&[1, 2]);
    network.receive(peer(1), Err::<Message<f32>, String>("bad".to_string()));
    network.receive(peer(3), Ok(Message::<f32>::Greeting { id: 1 }));
    network.receive(peer(1), Ok(Message::<f32>::Greeting { id: 2 }));
    network.receive(peer(3), Err::<Message<f32>, String>("bad".to_string()));
    assert_eq!(addresses(&network), vec![peer(2), peer(1)]);
}

#[test]
fn a_client_sends_nothing_and_makes_no_task_of_greetings() {
    let (network, _) = NetworkSystem::new_as_client::<f32>(peer(9000), 0);
    for message in [Message::<f32>::Greeting { id: 1 }, Message::Response { message_id: 1 }] {
        let r = network.on_message(peer(9000), &message, Some(3));
        assert!(r.tasks.is_empty());
        assert!(r.deliveries.is_empty());
    }
}

#[test]
fn client_handler_makes_at_most_one_task() {
    let (network, _) = NetworkSystem::new_as_client::<f32>(peer(9000), 0);
    assert_eq!(network.on_message_as_client(&Message::<f32>::Greeting { id: 1 }), vec![]);
    assert_eq!(network.on_message_as_client(&Message::<f32>::Response { message_id: 1 }), vec![]);
    assert_eq!(
        network.on_message_as_client(&Message::<f32>::ActorGrant { id: 1, public_id: 6 }),
        vec![GameTask::ActorGrant(6)]
    );
    let server = server_with(&[1]);
    let r = server.on_message_as_server(peer(1), &Message::<f32>::Greeting { id: 1 }, None);
    assert_eq!(r.tasks, vec![GameTask::PlayerConnect(peer(1))]);
}
