# actix_examples

A collection of small web services built on actix-web, whose logic lives in a
library verified with Verus.

- `src/` is the verified library, one module per service: the banking
  registry over MySQL (`banking`), the Star Wars schema with cursor
  pagination (`starwars`), API versioning by header (`guards`), form and JSON
  handling (`forms`, `json_api`, `payload`), JSON-RPC (`jsonrpc`), random
  errors (`custom_error`), the proxy's header rules (`proxy`), uploads and
  object keys (`uploads`), the cache replies (`cache`), the GraphQL user
  schema (`accounts`), certificate ordering steps (`acme`) and the fixed
  answers of the simplest services (`greetings`, `records`).
- `tests/` runs the library on concrete values.
- `app/` is the server binary: it reads requests, calls the library and
  sends the answers. Run it with the name of a service as first argument.
