# webgrid

The verified core of a decentralized, scalable WebDriver grid.

- `src/` is the library, written in Verus: capability structures and their merging,
  parsing of browser and container image definitions, matching images against requested
  capabilities, the heart clock and module lifecycle, scheduling decisions (required
  metadata, picking a provisioner), request and notification types, Kubernetes job
  bookkeeping, session creation through the ingress (request body to notification,
  startup outcome to answer, reading the WebDriver wire format from JSON documents),
  request forwarding failures, API query keys, screen recording arguments and Redis command logging.
  Every function carries a contract; the laws that relate several functions are public
  proof functions whose names begin with `law_`.
- `tests/` exercises the library on concrete values.
- `app/` is the command line program: argument handling, JSON (de)serialization of
  capability requests and the asynchronous driver of the heart.
