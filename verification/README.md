# AralPay

Programmable tuition escrow for overseas remittances. A sponsor deposits tokens
earmarked for one student and one registered university. The tokens stay in the
contract's custody until the student releases them to the school's registered
wallet, or until the sponsor takes them back after the deadline.

## Layout

* `src/`: the verified library. It decides everything and performs nothing: each
  entry point of `AralPayContract` yields a `Step`, that is, effects to perform in
  order (ask for an authorization, move tokens, store, publish) and then one
  question (a stored entry, the clock) or the end of the call.
  * `types`: records, storage keys, effects, events, errors.
  * `plan`: what each call does, as a mathematical tree over all answers.
  * `step`: the executable counterpart of a plan, proved equal to it at every answer.
  * `contract`: the entry points.
  * `ledger`: a model of the ledger, the execution of a plan on it, and the outcome
    of every operation there.
  * `laws`: what holds over whole histories of calls: escrows are settled once, money
    moves only by the rules, custody covers what is owed, and so on.
* `tests/`: scenarios on a real token ledger, and the steps of each call one by one.
* `app/`: the Soroban contract. Authorizations, token transfers and storage accesses
  can end an invocation at any time and depend on the state of the network, so they
  all stand here: a single loop carries a `Step` through and resumes it.

The library trusts nothing beyond Verus and its standard library.
