# ida_cli

The logic of a headless IDA Pro command line, its daemon and its tool server, written in Verus:
every function states what it returns, and Verus proves it.

- `src/` is the library. It holds no I/O: what the file system, the clock, a socket or the
  disassembler says comes in as an argument, and what is to be done goes out as a value.
  - `text`, `numbers`, `bytes`, `calendar`, `json`, `json_text`, `names`, `paths`: the values that
    everything else is made of.
  - `cli`, `protocol`, `dispatch`, `wire`: from a command line to a request, and from a request to
    the analysis that it asks for. `wire` proves that the second understands the first.
  - `daemon`, `framing`, `router`, `manager`, `targets`, `output`, `spill`: the daemon, its targets,
    and what is printed.
  - `database`, `opening`, `worker_loop`, `errors`: the process that holds a database.
  - `pool`, `sessions`, `calls`, `handlers`, `pooled`: what such a process is asked for, a pool of
    them, and the sessions that lease them.
  - `values`, `tools`, `scripts`, `schema`, `catalog`, `server`, `operations`, `tasks`,
    `dsc_task`: the tools and how they answer.
- `tests/` runs the library on concrete values.
- `app/` is the command-line program: argument parsing, sockets, processes, files and the
  disassembler. The pool, the opening of databases for it and the tools are for a program that
  serves tools; this one does not.

The calls into other crates (`serde_json`, `sha2`, `rmcp`) and into the parts of `std` that Verus
does not know stand behind small functions whose contracts are believed, each with a comment that
says what is believed of it.
