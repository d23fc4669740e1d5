# threadstat

Samples hardware performance counters of the threads that a message queue announces, and
writes what it reads to three CSV files.

- `src/` is the verified library (Verus): counter configurations, the group read buffer and its
  decoding, the event-list grammar, the polling loop's decisions and its table of watched
  sources, timer settings, message decoding, the session's bookkeeping, and the CSV rows.
- `app/` is the program around it: the system calls (`perf_event_open`, epoll, POSIX message
  queues, signalfd, timerfd), libpfm4, command-line parsing and file output.
- `tests/` runs the library on concrete values.
