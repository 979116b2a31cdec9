# robstride_sandbox

Control of Robstride motors over a CAN bus: a verified library, and around it a command line
tool and a terminal application.

## Layout

- `src/` is the library. It builds and reads frames, keeps the state of motors, scans, control
  loops and of the terminal application, and decides what happens next. Its functions carry
  contracts, and the laws that hold across functions are proof functions named `law_*`.
- `app/` opens sockets, serial ports, the lock file, the terminal and the configuration, does
  the arithmetic in physical units, and does what the library decides.
- `tests/` runs the library on concrete values.

## Frames

A frame of the protocol has a 29-bit identifier: the communication type in bits 28-24, extra
data in bits 23-8 (the host ID, or the torque of a MIT command) and the motor ID in bits 7-0.
A motor answers with its own ID in the low byte of the extra data. Every command has a payload
of eight bytes.

Positions, velocities and torques are 16-bit words centred on `0x7FFF`, gains are 16-bit words
from 0. How much a word is worth depends on the model.

## Programs

`robstride_sandbox` is the command line tool:

```
robstride_sandbox -i can0 scan
robstride_sandbox -i can0 -m 1 status
robstride_sandbox -i can0 -m 1 move-to 3.14 --speed 2.0
robstride_sandbox -i can0 -m 1 --fd monitor
```

A motor that a command has enabled is disabled when the command is over: a move ends that way
once the target is reached. While a program controls motors it holds the lock of the interface.

Started under a name that ends in `tui`, the same program opens the terminal application. Tab
changes the panel, Enter runs a command or edits a value, `x` runs the command whose parameters
are shown, `f` switches between classic CAN and CAN FD, Esc ends bilateral control, and `q`
ends the application. Values that were edited come back in the next session.
