# overlay_engine

An overlay engine: apps draw on canvases of a server, and monitors (desktop
windows, a game bar widget) show what the canvases hold. This crate is the
engine's logic, verified with Verus; `app/` is the Windows program around it.

## Modules

| Part | Modules |
| --- | --- |
| Wire format | `buffer`, `protocol`, `singleton`, `proto` |
| Drawing commands | `cmd_writer`, `cmd_decoder`, `frame`, `grid` |
| Shared memory | `shmem` |
| Server state | `tables`, `scene`, `server`, `consistency` |
| Handing surfaces over | `handoff`, `operations`, `handoff_laws` |
| Sessions with clients | `session`, `pending`, `catalog` |
| Showing frames | `present`, `compositor`, `durations` |
| The desktop window monitor | `window_options`, `window_table`, `lifecycle`, `title` |
| Finding the server | `install`, `paths`, `wide` |
| The demo | `demo` |
| Text | `text` |

Floating point numbers travel through the library as their bit patterns
(`F32Bits`), durations as nanoseconds, paths as strings.

Where the server needs the machine (open a process, duplicate a handle, create a
surface, send a message), its functions return the call to make and go on with
the reply: see `handoff::HostCall` and `handoff::HostReply`.

The functions that call into the `bytes` crate, and the few that call a function
of the standard library that Verus does not specify, are marked
`#[verifier::external_body]`; their doc comments say what is relied on.
