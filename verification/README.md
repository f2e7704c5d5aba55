# rustualize

A small Linux container runtime. The library (`src/`) decides what a run
does and is verified with Verus:

- `cli`: the command line and its checks;
- `config`: splitting the command into words, the container configuration;
- `hostname`: the random hostname `adjective-name-number`;
- `mounts`, `resources`, `filesystem`: the operations on the host that make
  the container's root, confine it in a control group, and install a system;
- `plan`: running such operations in order until one fails;
- `container`: the life of a container, from sockets to child to outcome;
- `api`: the answer of the start service;
- `errors`: error codes and exit codes.

The program (`app/`) reads the command line, makes the socket pair, starts
the child with `clone`, has the child set its hostname, make its root
(mounts, `pivot_root`) and execute the command, waits for it, and reports the
outcome. It can perform every operation a plan holds, including those of the
control-group and debootstrap plans, though a run builds no such plan.
