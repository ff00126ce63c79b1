# peios

Rust bindings to **libpeios**, the Peios userspace C ABI library, with a core
that is verified with Verus.

libpeios speaks for the kernel's security (KACS), event (KMES) and registry
(LCS) interfaces. The bindings treat it as a C library: its stable C ABI is the
only entry point.

## Layout

- `src/` is the core. It decides what every call is handed, what every reply
  means, when a read is tried again and with which buffer, and which error comes
  out. It calls nothing of libpeios. Its functions have contracts that Verus
  proves; believed without proof are the contracts of three calls into the
  standard library: reading the thread's errno, classifying an errno, and
  checking UTF-8.
- `app/` is the crate that users link. It owns the handles, makes the calls, and
  converts between its types and the core's. It needs `peios_sys`, the raw
  declarations that the build step (`app/bindings.rs`) generates from `<peios.h>`.
- `tests/` run the core on concrete requests and replies. They need no libpeios.

## How a call is made

A call that is made once is a request record built by the core, the call, and a
core function that takes the reply: `registry::open_key`, `file::opened`,
`access::decision`.

A read whose size is not known beforehand is an `exchange::Exchange`: a state
that says what the next call is, and a step that takes its reply.
`exchange::converse` conducts it. Each ends within a fixed number of calls,
whatever the replies are.

A builder keeps a log of what is to be set. The log is played into libpeios'
builder when the bytes are asked for, and the first error surfaces then.

## Linking

- **Dynamic** (the default) links `libpeios.so`.
- **Static** links `libpeios.a`. It carries its own copy of the Rust runtime, so
  it is for C consumers and for `no_std` binaries.

The build step looks for libpeios in this order:

1. the environment: `PEIOS_LIB_DIR`, with `PEIOS_INCLUDE` and `PKM_UAPI` beside it;
2. pkg-config: a `peios.pc` on `PKG_CONFIG_PATH`.

A dynamic build against `PEIOS_LIB_DIR` gets a runtime search path to it.
