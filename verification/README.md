# lanuminous

Intent-driven network orchestration for home-lab and small-site deployments.
A site is described by a folder of YAML files; the library loads them into a
canonical model, validates it, renders the managed configuration files
(dnsmasq, nftables, systemd-networkd and the reverse proxy), plans remote
access publications, and describes what a host agent finds in a staging
directory.

Layout:

- `src/` — the library, written in Verus. Its functions carry contracts over
  mathematical models of their inputs and results, and Verus proves them.
  Four small wrappers around outside calls are trusted rather than proved:
  the SHA-256 digest (`util::hashing`), `Path::extension` (`service`), and
  reading the clock and writing RFC 3339 text (`util::clock`); their
  contracts say what is assumed of them.
  `config` (loading and normalization), `validate` (site and remote-access
  rules), `render` (the renderers), `remote_access` (providers and planner),
  `deploy` (deployment plans), `service` (the site service), `api` (the site
  summary), `agent` (host agent), `text` and `seqs` (text and sequence
  facts), `util::hashing` (SHA-256 through the `sha2` crate).
- `tests/` — tests of the library on an example site built in code.
- `app/` — the `lanuminous` command: reading and parsing files, the HTTP API,
  printing JSON.
