# git-events-runner

A Kubernetes operator that runs `Jobs` on the content of Git repositories, on a schedule or when a
webhook is called.

* `src/` is the library, verified with Verus. It holds the custom resources and everything that is
  decided about them: when a trigger runs and what a run does, how a repository is fetched, what job an
  action becomes, which jobs of the queue may run, how requests are authorized, limited and answered,
  and how the configuration, the caches and the leadership are kept. Work on the cluster, on
  repositories and on files is described by plain values: a function takes what has happened and says
  what to do next.
* `src/controllers/` holds the reconciliation of the resources that have a single kind of trigger, and
  the validation of repositories.
* `app/` is the operator itself: the command line, the web servers, the watches on the cluster, and the
  work that the library asks for.
* `tests/` runs the library on concrete values.
