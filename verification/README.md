# android_utilities

Utilities for Rust code running inside an Android app: Bluetooth LE through
Android's Bluetooth stack (GATT, scans, L2CAP channels), network service
discovery (Android NSD), Java objects that own Rust objects, and loading
bytecode into a chain of class loaders.

Layout:

- `src/` is the verified library (Verus). It holds the decisions: GATT and
  Bluetooth status codes, the steps of connecting, disconnecting and pairing,
  scan filters as `ScanFilter.Builder` calls, reading scan records and resolved
  services, the bookkeeping of the two halves of an L2CAP channel (cancel-safe
  reads, writes matched to their answers), the callback slot that completes a
  GATT operation once, the class loader chain, and the initialization steps.
- `app/` makes the Java calls through JNI, runs the background threads of
  L2CAP channels and the JNI callbacks, and offers the async API (adapter,
  devices, services, characteristics, descriptors, scans, channels, NSD).
- `tests/` exercises the library on concrete values.
