# pleiades_worker

The worker node of the Pleiades serverless system: it contracts jobs from
the resource manager, runs them on language runtimes, resolves the requests
that suspended jobs make (blobs, HTTP, GPU), and measures what it does.

`src/` is the verified library, written in Verus.  It holds the decisions of
the worker and proves them against their contracts:

- `pleiades_type`, `runtime`: jobs, their states, and the requests and
  answers that pass between a job and the worker;
- `executor`: one run of a job on a runtime, and how its outcome is settled;
- `pending_manager`: which outside work resolves a suspended job, and how
  the answer is handed back;
- `helper`: choosing the least loaded scheduler or executor, budgets, and
  the registry of worker ids;
- `request_metrics`, `runtime_metrics`, `system_metrics`, `summary`,
  `proc_status`: measurement totals, the rows and summaries written to disk,
  and reading context switch counts from a task's status file;
- `placement`, `config`: settings and where threads are pinned;
- `time`, `text`, `payload`: spans of time, decimal text, and byte buffers.

`app/` holds the asynchronous components around it (channels, network,
files, threads), which hand their decisions to the library; only the
choice of reply channel for a resolved job is made there, by the kind of
message the job came in.

`tests/` runs the library on concrete values.
