# block_indexer

The verified core of a Namada block indexer.

- `src/` is the library, verified with Verus:
  - `block`: blocks as crawled, the row stored per block, the block served by the API;
  - `catch_up`: cutting a height range into batches, settling a fetched batch, and the
    catch-up state machine;
  - `crawl`: the per-block crawl state machine, the move after each height, and the start /
    catch-up decisions;
  - `api`: range queries, API errors, repository range bounds, row-to-response mapping;
  - `namada`, `bond`, `client`: what is made of Namada's replies, made-up bonds, client headers.
- `app/` runs the crawler around the library: database access, RPC queries, HTTP handlers.
- `tests/` exercises the library on concrete values.
