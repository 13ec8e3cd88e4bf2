# cloudpipe

Expose a local port to the public internet through a Cloudflare Tunnel and a DNS
record on your own zone. There is no shared service in between: the program
talks to the Cloudflare API with your own token, and `cloudflared` carries the
traffic.

The library in `src/` is written and verified in Verus. It decides everything
and performs nothing: which call of the API comes next, what a reply means, when
a tunnel is restarted or given up, what has to be given back. Multi-step work is
a value that says which request to send next and takes the reply, so that what
holds of every run can be proved, whatever Cloudflare answers:

- a live tunnel of the same name is left alone; a stale one is removed first
- a tunnel that cannot be configured is deleted again
- a session that ends gives its DNS record, connections and tunnel back
- a stop that is granted is followed by that release, whatever the tunnel was
  doing at the time
- the configuration that was saved is the one that is loaded
- what the user ends stays ended; a crashing tunnel is restarted under the same
  name, and given up after five failures in a row
- a cleanup deletes every dead tunnel it was told of, and reports what it removed

Layout:

- `src/`: the library; `src/lib.rs` lists the modules
- `tests/`: its tests
- `app/`: the `cfp` program around it: arguments, files, HTTP, processes,
  terminal output, and an addon for Node.js

What is not proved but trusted is marked `external_body` or
`assume_specification` in `src/`, with the outside function it stands for:
documents (`json.rs`), HTTP status lines (`client.rs`), archives (`install.rs`),
random names (`protocol.rs`), and appending to and lower-casing strings
(`text.rs`).
