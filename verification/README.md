# fuente_state

The state and the rules of the Fuente marketplace apps (consumer, business,
courier and admin), written in Verus and proved against their contracts.

- `src/` is the verified library: the reducers behind each app's contexts,
  the choices the pages make on that state (which orders a list shows, how
  products and history lists are sorted, what a sign-in check shows), the
  reading of notes' tags and of the whitelists' JSON, and the laws that hold
  across these operations.
- `app/` is the glue the browser apps need around it: Yew reducer stores
  that apply the library's actions, conversions between relay notes and the
  library's plain notes, the listeners' handling of notes and subscription
  events, and the money figures, which are floating point.
- `tests/` runs the library on concrete values.

Calls into `nostro2`, `serde_json` and `str` that the library makes stand
behind small trusted wrappers whose contracts state what the call returns
where its documentation says it in a few lines, and name it otherwise;
each wrapper's doc comment says what is claimed of it.
