# imagik

An image transformation service. Requests name an object in a bucket (or
behind a signed URL) and a list of transforms; the service fetches the
object, transforms it, encodes it as WebP, and caches sources and results in
process, on disk and in an external store.

## Layout

- `src/` is the library, verified with Verus: parameter parsing, cache
  signatures and keys, cache and lock policies, the in-process LRU hot cache,
  storage configuration and retry policy, the disk cache's eviction order,
  the image request and source loading as state machines (the caller
  performs each decided action and reports what came of it),
  crop and overlay of RGBA buffers, the grayscale and invert filters, and the
  metrics registry with its Prometheus export. Each public function states
  its result in its contract; the laws that span functions are public proof
  functions (`lemma_*`).
- `app/` is the server around it: HTTP routes, the loops that run the state
  machines, the store and object-storage clients, file I/O, and the transforms that work on fractional numbers.
- `tests/` runs the library on concrete values.
