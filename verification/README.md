# cups_rs

A CUPS client library whose decision-making is verified with Verus.

- `src/` is the verified library: IPP group tags, value tags, operation and
  status codes and their wire codes (`tags`); IPP requests and responses held
  as plain values, with lookup by name and group, collection members and text
  members (`ipp`); the arguments a connection is opened with and how libcups's
  answer becomes a connection or an error (`connection`); DNS-SD browse and
  resolve events (`dnssd`); string helpers (`text`).
- `app/` performs the libcups calls: it opens and closes connections, turns
  requests into libcups messages and replies back into `IppResponse` values,
  and runs DNS-SD browsing and resolving.
- `tests/` exercises the library on concrete values.
