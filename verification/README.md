# keylime_device_id

Builds the device identity of a TPM-backed attestation agent: the IAK
(Initial Attestation Key) and the IDevID (Initial Device Identifier), each
with its X.509 certificate, from the options set on a `DeviceIDBuilder`.

- `src/` is verified with Verus. `builder` holds the options and the
  decisions taken on them (where a certificate comes from, how a key is
  obtained); `steps` is the build as a state machine that names each outside
  operation it needs and takes its outcome; `device` is the built identity and
  the certification of a key with the IAK; `error` the errors; `text` the
  trimming of options; `laws` what holds of every build.
- `app/` performs the outside operations (certificate files, TPM commands)
  through a backend that the agent provides, and runs the build loop.
