# Matrix SIP bridge

A bridge that lets people in Matrix rooms dial out to a SIP exchange with WebRTC
and websocket support. Its decisions are a library that is verified with Verus;
the program around it moves bytes.

## Layout

* `src/` is the library.
  * `message`, `wire`: SIP messages and the text in which they are written.
  * `parser`: reading what the exchange sends.
  * `sip`, `branch`, `auth`: the requests of the bridge, new branches for them,
    and the answers to challenges.
  * `connection`: registering, keeping the connection alive, and passing requests
    and responses through it.
  * `call`: the exchange of messages that sets up a call.
  * `room`, `session`, `media`, `matrix_types`: what the bridge does in rooms, how
    it logs in and joins, and how the sound of a call is handled.
  * `surroundings`: chance, and the address of the machine.
* `tests/` runs the library, and holds what it writes against `rsip`.
* `app/` is the program: command line, websocket, Matrix client, peer connection
  and the store of sessions.

The connection and the call are state machines. Each has a function that says
exactly how it goes on, given the random numbers and the address of the machine,
and one beside it that takes these from the machine.

## Usage

```
sip_bridge <HOMESERVER_URL> <USERNAME> <PASSWORD> <SIP_SERVER_DOMAIN> <SIP_SERVER_ADDRESS> <SIP_USERNAME> <SIP_PASSWORD>
```

In a room, `!dial-out <sip_address>` takes an address that starts with `sip:` or
`sips:`, or a number, `!dial-in` tells how to dial in, and `!help` lists these
commands. A number is dialled as a user of the server.
