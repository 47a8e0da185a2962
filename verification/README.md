# farcaster_node messages

The requests and replies that the services of a Farcaster swap node exchange,
with the rules that build, read and write them, verified with Verus.

- `src/rpc/request.rs`: the messages, failure codes, offer selectors and
  statuses, progress reports, the texts that each message is shown as, and
  the conversion of results into progress, success or failure replies.
- `src/rpc/funding.rs`: funding information, read from and written to the
  line `<swap id> needs <amount> to <address>`.
- `src/rpc/msg.rs`: the message in which a participant reveals its swap
  parameters.
- `src/text.rs`: splitting, comparing and joining text, and decimal numbers.
- `src/cli.rs`: the offer selector of the command line.
- `src/trusted.rs`: the types and calls of outside crates (bitcoin, monero,
  farcaster_core, internet2, uuid, rustc-hex, base58-monero), with the contracts that the
  proofs rely on.
- `app/lib.rs`: serde, YAML and strict encoding of the replies, on copies of
  the library's types that carry those derives.
