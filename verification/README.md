# yourcontrols

The session core of a shared cockpit: several people fly one simulated aircraft
over the network, one of them in control, the others following or observing.

The crate is written in Verus. `Session::handle` takes one input (a message of
the simulator, a payload or event of the network, something done in the window,
the passing of time, or the reply to an earlier action) together with the facts
that hold at that moment, and answers with the actions to perform. Its contract
states the next state and the answer for every input.

- `src/message.rs`, `src/action.rs`, `src/config.rs`: what a session is told, what
  it asks for, and the settings it keeps.
- `src/model.rs`: the session as a mathematical object, and how it moves.
- `src/session.rs`: the session that runs.
- `src/clock.rs`, `src/startup.rs`, `src/transfer.rs`: delays and rates, the way
  into a session, and the sending of gathered data.
- `src/laws/`: what holds of every session, as proof functions.
- `app/`: the main loop around a session, for a machine that supplies the window,
  the simulator, the aircraft definitions, the list of clients and the network.

An action that has a reply is answered at once: the reply goes to the session
before the next action of the same list is performed. Message bodies stay outside
the session, which refers to them by number.
