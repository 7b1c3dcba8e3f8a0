# cass_cluster

The configuration of a database cluster as the C interface of a driver offers
it: contact points, ports, timeouts, credentials, load balancing, execution
profiles. Every setter has a contract over a mathematical model of the cluster,
checked by Verus.

- `src/cluster.rs`: the cluster, its setters and what a session is built from
- `src/contact_points.rs`: comma separated lists, node addresses
- `src/cstring.rs`: text that crosses the C boundary
- `src/load_balancing.rs`, `src/exec_profile.rs`, `src/session_options.rs`,
  `src/types.rs`: the parts of a configuration
- `src/driver.rs`: the calls into `scylla`, `openssl` and `uuid`, with what is
  trusted of them
- `src/laws.rs`: what holds of several functions together
- `app/`: the C functions themselves, and the asynchronous last step from the
  parts of a session to the driver's session builder
