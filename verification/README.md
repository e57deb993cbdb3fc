# mcp_call_proof

A call proof calls one tool of an MCP server and vouches for it with digests: of the arguments, of
what the server listed, of what the tool returned, and of all of these together. It holds nothing
that the server sent. The tool is called only once the server has listed it exactly once and has
declared that it only reads.

A capability allows one call proof, once, to one user in one conversation, on the backend that
issued it, for thirty seconds.

## Layout

- `src/` is the library, verified with Verus. It decides and computes. Work on processes, on the
  network and on the conversations of a backend is handed out as steps, and what came of it is taken
  back as events.
  - `json`, `digest`, `text`, `urls`, `clock`, `capability`: values, and the outside functions that
    compute on them.
  - `prepared`, `protocol`, `checks`, `receive`, `spawn`, `evidence`, `failure`: the parts of a call.
  - `lifecycle`, `service`: a call from its first step to its proof.
  - `pending`, `binding`, `backend`, `qualification`, `verdict`: capabilities.
  - `laws`, `success`, `qualification_laws`: what holds of every call, what a server has to do for a
    call to be proved, and what holds of every capability.
- `tests/` runs the library.
- `app/` performs the steps: it starts commands, speaks HTTP, reads event streams and looks up
  owners.
