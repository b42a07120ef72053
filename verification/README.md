# shared_menu

A restaurant of dining philosophers spread over the network: a waiter,
philosophers and pieces of cutlery run as separate nodes and call each other
over TCP.

- `src/` is the verified library. It holds the node states and wire types,
  the waiter's bookkeeping (`restaurant`, `table`) and seating plan
  (`seating`), what a piece of cutlery does with each request (`cutlery`),
  and what a philosopher decides when it is asked for cutlery, receives or
  passes it, and at each step at the table (`philosopher`).
- `app/` runs the three kinds of node (`philosopher`, `cutlery`, `waiter`):
  the sockets, the serialization with bincode and serde_json, the HTTP front
  end of the waiter, and the asynchronous call protocol.
- `tests/` exercises the library.
