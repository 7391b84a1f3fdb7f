# dig-did

Unsigned spends of Chia decentralized identifiers (DIDs), verified with Verus.

`dig-did` builds the coin spends of a DID's lifecycle and reports the signatures that a caller must
produce. It holds no key, signs nothing and reads no network.

```text
build an unsigned DidSpend
   -> required_signatures(&spend.coin_spends, &constants)
   -> the caller's signer signs each reported message
   -> assemble a bundle (coin spends + aggregated signature)
   -> broadcast
```

## What it does

| Function | What it does | Signatures |
|---|---|---|
| `create_did`, `create_simple_did` | mint a settled DID from a funding coin | two `AGG_SIG_ME` of the owner |
| `create_eve_did_only` | launch a DID without the settle spend | one `AGG_SIG_ME` of the owner |
| `spend_did_with_conditions` | spend a DID that recreates itself, with the caller's conditions | one `AGG_SIG_ME` of the owner, and what the conditions ask for |
| `melt` | end a DID | one `AGG_SIG_ME` of the owner |
| `hydrate_did_from_parent_spend`, `parse_did_coin_spend`, `did_info_from_puzzle` | read DIDs out of coin spends | |
| `walk_did_lineage_to_tip`, `resolve_xch_address`, `resolve_xch_address_from_did_string` | find a DID's current coin and its owner's address, over a `ChainSource` | |
| `prove_lineage` | prove that a coin is rooted in a DID, over a `ChainSource` | |
| `required_signatures` | what a list of coin spends has to be signed with | |
| `clvm::emitted_conditions` | what a spend emits, to be looked through before it is signed | |
| `did_string_from_launcher_id`, `launcher_id_from_did_string` | the `did:chia:1…` string | |

## What is proved

Each public function says in its contract what it returns and stages for every input, errors included.
The laws stand beside the functions that they are about, as public proof functions. Among them:

- a preserving spend leaves the DID as it was, one generation on, emits the caller's conditions in their
  order, and extends the lineage; where it runs, it hydrates to exactly the DID that it left;
- every signature that it adds is bound to the DID's coin or to that coin's parent;
- no condition outside the allowlist passes, however it is disguised;
- a creation carries the funding coin's whole amount, which is odd, creates nothing but the DID, and the
  created coin authenticates;
- a melt is the owner's, leaves no DID and no successor, and creates no coin where it runs;
- a refused operation stages nothing;
- a coin authenticates exactly along a genuine lineage, and an address is only ever that of the launcher
  that was asked for.

## What is taken on trust

Every puzzle and spend byte comes from `chia-wallet-sdk`. The functions that call it are marked
`#[verifier::external_body]`; their contracts say what is taken from the SDK, and their doc comments name
the function that is called. A tree is held in its serialized form, and a result of the SDK that would
take pages to state is given a name (`did_spend`, `signatures_of`, `emitted` and the like). What is said
of signatures is said of valid keys: under a key outside the signature group the SDK reports none.

## Layout

- `src/`: the verified library.
- `tests/`: its tests, which run the spends on the SDK's simulator.
- `app/`: the standard library's error traits, chain readers with errors of their own, and conversions to
  and from the SDK's types.
