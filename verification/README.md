# steward_harness

The decisions of an end-to-end harness for the Steward control plane, verified with Verus.

`src/` holds what the harness decides: which settings a suite needs, what it tells `kubectl`,
`curl` and OpenShell, what it makes of their replies, what each look of a wait means and how waits
end, which manifests and reservations it writes, and how its stand-ins for Jira, for the Kubernetes
API and for a decision channel behave. Waits that count their looks are counted there, too. Every
function states in its contract what it returns; the laws that relate several of them are the public
proof functions whose names begin with `law_`.

`app/` holds the rest: processes, files, sockets, databases, and clocks with the deadlines that they
are held against.

| Module | What it is about |
|---|---|
| `text`, `json`, `digest`, `crypto` | text, JSON documents, digests and crypto providers |
| `probe`, `harness`, `servers`, `cluster`, `polling` | settings, processes and waits of the suites |
| `identities`, `runtimes`, `envelopes`, `manifests` | people, agent runtimes and their limits |
| `jira`, `kube_api`, `orchestration` | stand-ins for services that a suite needs |
| `openshell`, `connections`, `task_api` | sandboxes, connections and Tasks |
| `task_store`, `store_run`, `federated`, `upgrade` | what the stores are asked, and must answer |
