# vit_servicing_station

The verified core of the VIT servicing station, written in Verus.

- `src/graphql.rs`: the proposal, category and proposer objects the GraphQL
  endpoint serves, with their resolvers.
- `src/context.rs`: the context the server's handlers share.
- `src/db/models.rs`: funds, vote plans, proposals, API tokens, and vote
  options with their CSV field (both directions, with round-trip laws).
- `src/db/inserter.rs`: the row each record becomes and the ordered inserts
  that seed the database.
- `src/loaders.rs`: the CSV load command as state machines (the load, and
  the load guarded by a database backup), and the collection of CSV records.
- `src/load_runs.rs`: laws over whole runs of the load.
- `app/`: the CSV tool's `main`, the file and database I/O that drives the
  state machines, the diesel schema, the GraphQL objects and the serde and
  structopt copies of the library's types.
