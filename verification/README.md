# minter

A fixed-price minter for an NFT collection on a CosmWasm chain, with its rules
proved in Verus. A sale is set up with a number of tokens, a price, a start time
and a limit per address. Anyone can then mint a token that chance picks, or pay to
shuffle what is left; a whitelist can open the sale to its members early and at
another price; the admin mints for others, changes the terms that may change, and
withdraws the proceeds.

## Layout

- `src/` is the verified library.
  - `contract` takes the messages of a running sale, `setup` opens a sale and takes
    the report on its token contract, `query` reads it.
  - `mint` and `admin` hold the messages one by one, `fees` and `tokens` what they
    share: how fees are disposed of, and the order in which tokens are handed out.
  - `state`, `msg`, `chain` and `error` are the types, each with its model.
  - `outcome` says what it means that a call went as its outcome says.
  - `upheld` is the invariant of a sale, `laws` what the contract promises as a
    whole, `history` what it promises over many messages.
  - `outside` holds the calls into other crates; their contracts are believed.
- `tests/` runs the library on concrete values.
- `app/` is the contract around it: entry points, storage and JSON.

## How a call runs

The library does no input or output. A call that needs something of the chain
returns a question; the contract puts it to the chain and makes the call again with
the answer. The state of the sale is a plain value. A call that is refused, or that
still waits for an answer, leaves it as it was.
