# kopiur-controller

The decisions of a Kubernetes controller for kopia repositories, verified with
Verus: what a `ClusterRepository` and a `Maintenance` do next, what their status
says, who a mover runs as, and with which security contexts.

The library in `src/` takes plain values and gives plain values back. Reconciles
are machines: a function from stage and event to the next stage and the action
to perform. Everything that talks to a cluster is in `app/`, which performs the
actions and hands the answers back.

| Modules | What they decide |
| --- | --- |
| `conditions`, `condition_laws`, `status` | conditions and status patches |
| `bootstrap`, `cluster_bootstrap`, `cluster_job`, `work_spec` | the bootstrap of a repository through a mover Job |
| `cluster_finalize`, `cluster_finalize_laws` | how a finished bootstrap is written down |
| `cluster_reconcile`, `cluster_objects` | one reconcile of a `ClusterRepository` |
| `seed`, `seed_arm`, `seed_run`, `seed_messages`, `seed_laws` | seeding a new repository from an existing one |
| `maintenance_*` | schedules, requests, Jobs and conditions of a `Maintenance` |
| `rbac`, `names`, `labels` | who movers run as, and under which names |
| `pods`, `security`, `selector`, `inherit`, `mover_security` | pods that do not start, and inherited security contexts |
| `backend`, `error`, `instant`, `lists`, `notes`, `quote`, `text` | shared values |

Laws that span functions are public proof functions beside what they speak of.
Three functions are trusted: `instant::parse_rfc3339` and
`instant::write_rfc3339` call chrono, and `quote::debug_quoted` formats a text
with std.

## Words shared with others

Some words have to agree with what the mover and the custom resources' API use,
and nothing in this crate can tell that they do: the two lease reasons in
`maintenance_conditions`, the failure reasons of a seed in `seed`, and the
annotation keys in `cluster_objects` and `rbac`. Each is a constant or a single
predicate, and is marked as assumed where it stands.
