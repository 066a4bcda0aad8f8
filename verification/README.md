# rainbeam_core

The rules of the Rainbeam social network as a Verus library. Verus
verifies every function in `src/` except the few marked wrappers around
std, `regex` and `ammonia`, whose contracts are trusted; each public
function carries a contract that states what it returns or changes.

- `permissions`: permission bit sets, helper and manager status.
- `model`: profiles, tokens and their contexts, metadata, error messages.
- `kv`: a string map with unique keys that the records use.
- `access`, `session`, `tokens`: who may change whose profile, signing in and
  out, and the tokens an account holds.
- `database`: accepted usernames and metadata, which profile an id names,
  marketplace items, and what relationship, follow and coin requests lead to.
- `profile_view`, `pages`, `images`, `circles`: what the pages decide before
  they render (who may see a page, the relationships shown beside a feed),
  and the cleaning of user text.
- `layout`: profile layouts, their imports, the cache of layout files and
  their renderings.
- `carp`: the CarpGraph drawing format, its bytes and its SVG form.
- `citrus`: federation identifiers, server descriptions and API templates.
- `blog`: the rules of the blog service and its choice of language file.

`app/` holds what stays outside the proofs: JSON forms of the records,
reading layout files through the cache, carrying out the steps of a profile
deletion, and the helpers that serialise.
