# federation

A federation of modules, built on type-level lists
(`hlist::Cons`, `hlist::Nil`) and type-level sums (`Enum`, `EnumNil`), verified with Verus.

- `src/genum.rs`: `Enum`/`EnumNil` and `GenericEnum`, the position of the payload in a chain.
- `src/gmap.rs`: mappings from a module to one of its types, and the enum over all modules.
- `src/process.rs`: routing an item to the module at its position (`Process`).
- `src/gtry.rs`: turning an enum of results into a result over an enum of errors (`GTry`).
- `src/module.rs`: the transaction part of a module (`FederationModule`).
- `src/mint.rs`, `src/wallet.rs`: the two modules.
- `src/lib.rs`: `Federation`, and the laws of routing through it.
- `app/`: the program, the async consensus hooks of a module, the
  conversions to `anyhow`, and `EnumIdx`.
