# pixelflux

Screen capture and hardware encoding on Linux hosts: the rules of a desktop-portal session and of
the Tegra H.264 encoder, with contracts that Verus proves.

- `src/wayland`: opening a portal session, the requests that a `Response` signal answers, the
  streams of a started session, input notifications and the restore token.
- `src/encoders`: loading the vendor libraries, configuring the V4L2 encoder, driving a frame
  through it, changing its bitrate and letting it go.
- `src/text.rs`: the decimal numbers and trimmed texts of both.
- `app`: the session bus, the device and the libraries themselves.
- `tests`: what the library does on given values.

Whatever has to talk to the outside is a step machine. It names the call that is due, the program
makes the call, and the machine takes the answer. What a machine does with every possible answer
is a mathematical function (`next`). The properties of single steps and of whole runs are public
proof functions beside it.
