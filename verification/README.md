# bardcast

bardcast reads audio that is playing on a system with PulseAudio, and streams it to
a Discord voice chat or writes it to a `.wav` file.

The project consists of a library whose behaviour is stated in contracts and proved
with [Verus](https://github.com/verus-lang/verus), and of an application that
connects it to the outside world.

## Layout

| Path | Contents |
| ---- | -------- |
| `src/cfg.rs` | Configuration from commandline arguments and INI files. |
| `src/lifecycle.rs` | Startup, shutdown and failures of the application. |
| `src/snd/` | Sound drivers: driver selection, and the decisions of the PulseAudio driver. |
| `src/consumer/` | Audio consumers: the Discord client, and the `.wav` writer. |
| `src/util/` | Text, tasks, and leases of shared values. |
| `tests/` | Tests of the library on concrete values. |
| `app/` | The application: I/O, asynchronous tasks, and everything that calculates with fractions. |

## How the library is driven

The library performs no I/O. What alternates I/O with decisions is a state machine:
it returns the next request (for example to look up a sink, or to move an
application), and is resumed with the reply. Every step is proved to be the one that
a specification function gives, and properties of whole operations follow from that.
They are stated by the functions whose names start with `law_`.

Functions that are marked `external_body` or declared with `assume_specification`
wrap calls into other crates. What they promise is believed rather than proved, and
their documentation says what that is.
