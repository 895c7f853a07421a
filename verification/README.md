# mcpmux

The core logic of McpMux, a gateway that multiplexes MCP servers for MCP
clients, written in Verus and verified against its contracts.

- `src/` — the verified library:
  - `branding` — product constants and the URLs, URIs and names made from them;
  - `server`, `config` — server definitions and user space configuration files
    (transport detection, `${input:ID}` placeholder discovery, ID and alias
    normalization, authentication inference);
  - `feature`, `feature_set`, `resolution`, `set_api` — discovered features,
    feature sets and what a client's grants resolve to, and the rules for
    editing sets;
  - `dcr` — Dynamic Client Registration of MCP clients (redirect URI rules,
    RFC 8252 matching, idempotent re-registration);
  - `outbound`, `flows`, `credentials`, `oauth` — the gateway's own OAuth
    flows against remote servers;
  - `pool`, `gateway_api`, `transports`, `protocol` — connection bookkeeping;
  - `event`, `ui` — domain events and their routing to the desktop UI;
  - `registry`, `storage` — the server registry and stored feature records;
  - `text`, `uri`, `pattern`, `ids` — supporting pieces, including the
    calls into `url`, `regex`, `uuid`, `chrono` and `shell-words` (`flows`
    keeps its tables in `dashmap` maps).
- `tests/` — tests run against the compiled library.
- `app/` — JSON forms of the library's types and the UI payload rendering.
