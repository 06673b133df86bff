# durable

Durable Objects for the Workers platform, with the decisions verified by Verus.

- `src/` is the verified library. It says which calls to make on the runtime and what the answers
  mean: storage and transactions (`storage`), alarms (`schedule`), ids and stubs (`namespace`),
  options objects (`options`), the course of an asynchronous operation (`operation`), JavaScript
  values and numbers (`value`, `number`), errors (`error`). `runtime` spells out what the runtime promises, and
  `laws`, `alarm_laws` and `id_laws` state what holds over several calls where it keeps them.
- `app/` makes the calls. Everything that touches a JavaScript value is there, since such a value
  exists only inside the JavaScript host.
- `tests/` runs the library against a runtime in miniature, and its number conversions against
  floating point.

Handles to values of the runtime are type parameters of the library. It moves them and never looks
inside; what it has to know of a value comes with the handle as plain data (`value::Value`).
