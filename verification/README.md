# helium-multi-gateway

A multi-gateway aggregator for the Helium LoRaWAN network. It accepts connections from many
LoRaWAN gateways over the Semtech UDP protocol, keeps a keypair for each gateway, and routes
packets to the Helium packet router.

The decisions of the server are a library that Verus verifies; the program around it is ordinary
Rust.

- `src/` is the library.
  - `mac`, `frame`, `packet`: MAC addresses, LoRaWAN frame headers, packet metadata
  - `keypair`, `keys_dir`: keypairs and their files
  - `gateway_entry`, `gateway_info`, `gateway_table`: the state of gateways
  - `router`: the steps of a gateway's router task
  - `dispatcher`: what follows from the events of the UDP server
  - `api`, `metrics`, `health`: what the REST API answers and what is counted
  - `settings`, `cli`, `text`: defaults, command line, text
- `tests/` runs the library.
- `app/` is the server and the command line. It needs the `gateway_rs` crate, which is not on
  crates.io.

Proof functions whose names begin with `law_` state what holds of the library as a whole.

Times are readings of a monotonic clock in nanoseconds, which the caller hands in. Numbers with a
fraction (frequency, signal-to-noise ratio, coordinates) are kept as the bits of their IEEE 754
encoding.
