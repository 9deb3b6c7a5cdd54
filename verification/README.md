# garn

A client library for named inter-process mutexes that the `garnd` service
hands out through shared memory.

- `src/` is the verified library: the error model of the C interface
  (`error_handling`), the liveness marker (`alive_marker`), the shared-memory
  page bookkeeping (`shm_consumer`), the registry of opened mutexes
  (`registry`), the decisions on the service's replies (`environment`), the
  step-by-step opening of environments and mutexes (`open_environment`,
  `open_mutex`), the
  meaning of pthread return codes (`mutex`), the argument checks of the C
  interface (`interface`), the constants of interface functions (`reflect`),
  a name-only mutex (`local_mutex`) and decimal notation (`decimal`).
- `app/` is the C interface and the platform work, which it performs as the
  library's opening steps direct: pointers and C strings,
  the socket exchange with the service, `mmap`/`munmap`, and the pthread calls.
  It relies on the `garnshared` crate of the service for the message protocol.
