# base_hsm

The decision logic of a PKCS#11 hardware security module (HSM) driver, verified with Verus.

Every operation is a machine. Starting it gives the first call to make; the reply to a call gives
the next one, or the result. The contracts say exactly which call follows which reply, and the laws
say what holds of an operation from its first call to its last.

- `src/session`: post-quantum operations of a session: key pair generation, ML-KEM encapsulation and
  decapsulation, ML-DSA verification.
- `src/hsm`: operations of the HSM: creation, deletion and search of objects, encryption, signing,
  and what they leave behind for each other.
- `src/batch`: batches of encryption and decryption requests, one after the other, on a worker pool
  or on threads of their own.
- `src/cryptoki.rs`, `src/error.rs`, `src/step.rs`, `src/text.rs`, `src/secret.rs`: what these share.
- `app`: the driver that makes the calls, owns the threads and reads the environment.
- `tests`: the machines run on given replies.

Trusted, because Verus does not see inside the `zeroize` crate: a `SecretBytes` holds the bytes that
it was made from.
