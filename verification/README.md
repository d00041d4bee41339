# qrmi

Quantum Resource Management Interface: one interface (acquire, release,
start, stop, status, result, target, metadata) over three quantum back ends,
IBM Qiskit Runtime Direct Access, IBM Qiskit Runtime Service and Pasqal Cloud.

- `src/` is the verified library. It holds every decision of the back ends
  (configuration from the environment, session handling, token renewal, job
  and batch state mapping, where results are stored, request addresses,
  headers and queries, which replies are retried, error messages) with
  contracts that Verus proves.
- `app/` performs the I/O that these decisions call for: HTTP, S3, the
  environment, the clock, and the C and Python interfaces. It also reads the
  members of JSON answers into the library's types, and retries a request
  whose connection failed or timed out.
- `tests/` runs the library on concrete values.
