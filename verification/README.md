# chive_runtime

The arithmetic and policy of the CHIVE parachain runtime, verified with Verus.

- `src/currency.rs`: time and currency units, the storage deposit formula and
  its laws (additive, monotonic, never overflowing).
- `src/fee.rs`: the weight-to-fee polynomial, built through `sp_arithmetic`'s
  `Perbill::from_rational` and held in a `smallvec::SmallVec`, with the proof
  that its term is the fee ratio rounded down to a billionth.
- `src/proxy.rs`: the proxy kinds, their call filter and superset relation.
- `src/version.rs`: the runtime's version and its native version.
- `src/authorship.rs`: from a block author's key to its account identifier.
- `app/lib.rs`: the SCALE-encodable copy of the proxy type and the conversion
  of the polynomial into `sp_weights` coefficients.
- `tests/runtime.rs`: concrete values for each of the above.
