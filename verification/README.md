# secure-chat

A chat whose clients exchange keys with each other and encrypt what they say.
A message can carry a hidden text, which is encoded under a key that all clients
have in common. The server passes messages on and takes no part in the exchange
of keys; its log says who writes to whom and whether a message carries a hidden
text, and does not show that text.

- `src/` is the library, verified with Verus: the messages (`message`), their
  wire format (`wire`), hexadecimal text (`hexadecimal`), the ciphers
  (`cipher`), key exchange and random numbers (`keys`), the time of day
  (`clock`), calls whose results are known by their origin (`call`), the
  commands that users type (`command`), what a client does on a command and on a
  message (`protocol`, `client`), what it shows (`display`), the server's
  routing and log (`server`), and what all of these promise together (`laws`).
- `tests/` runs the library.
- `app/` holds the programs around it: sockets, threads and the terminal.
