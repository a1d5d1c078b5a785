# electrs configuration, verified

The configuration logic of an Electrum server for Bitcoin and DigiByte,
written in Verus.

- `src/address.rs`: socket addresses as plain values, the choice among the
  results of a name lookup (IPv4 first), resolving a configured address.
- `src/network.rs`: the networks, their names, default ports, directories and
  magic bytes.
- `src/auth.rs`: daemon credentials and their display with the password hidden.
- `src/paths.rs`: extending paths, the default daemon directory and the list of
  configuration files.
- `src/config.rs`: checking a parsed configuration and putting it together.
- `src/laws.rs`: properties that span several functions.
- `app/`: name lookups, the home directory, the argument parser's traits,
  printing errors, exiting and starting the logger.
