# arena

The logic of a small networked arena game, verified with Verus.

- `src/components/actor.rs`: the movement flags of an actor.
- `src/systems/player.rs`: how the movement axes set those flags.
- `src/systems/collision.rs`: which pairs of entities a collision pass tests.
- `src/systems/net/`: the messages between peers and the decision core of the
  network system (the table of peers, where messages go, what received
  datagrams and messages do).
- `src/states/ui/`: the new-game menu and the notification menu.
- `app/`: the engine and socket side: floating-point components, conversions
  between engine or socket values and the library's values, the UDP socket.

The network system keeps its peers in a `Vec` of connections whose addresses
are kept apart by a type invariant, in the order the peers connected, rather
than in a `HashMap` keyed by the address: with a struct as the key, Verus
proves nothing of what a `HashMap`'s `insert` or `get` does, while the `Vec`
table lets every change of it be stated and proved exactly.
