# RPCN

RPCN is a server that implements multiplayer functionality for RPCS3. This is the
verified core of two of its parts and of what it does for single titles:

- title user storage (`cmd_tus`, `tus_files`): the variables and the saves that
  titles keep for their users;
- the stat server (`stat_server`): who is playing, scores, rooms, matches, ranks
  and leaderboards, over HTTP, and the operator endpoints;
- Tekken Tag Tournament 2 (`game_specific_tus`, `game_specific_matchmaking`): the
  starting rank of a new account, the checksum of its save, and the rank range of
  a room search.

## How it works

The library in `src/` does no input or output. A command is a function from the
request and the answers got so far to the next step: a question for the host, or
the end of the command. The host in `app/` owns the sockets, the files and the
database; it does what a step asks for, puts the answer into the command's
answers and calls again.

What a step is, is stated by a specification function, and the executable function
is proved to agree with it. What follows for all requests and all answers is
stated by the proof functions whose names start with `law_`.

## Layout

- `src/` the library
- `tests/` its tests
- `app/` the host: hyper, tokio, the database pool, serde and prost

## What is taken on trust

The contracts of `openssl::memcmp::eq`, of the `serde_json` functions that read,
cut and write a leaderboard (`stat_server::trim`), and of `String::push` (`text`).
Each is stated where it is used.
