# misa_actuator

Drivers for servo motors of several families (LK motors on RS485, DAMIAO motors
on CAN and CAN-FD, Robstride motors on CAN), a terminal tool for all of them and
a command line for DAMIAO motors.

`src/` is the library, verified with Verus:

- `bytes`, `text`, `canbus`, `clock`, `ids`, `progress`: numbers as bytes and as
  text, CAN frames, time, motor ids, reports of progress.
- `error`, `feedback`: what all families have in common.
- `lkmotor`: frames, requests, responses, the receive buffer of the serial line,
  the turn tracker and position anchor of a motor.
- `damiao`: frames, registers, the driver, bus scans, the plans of the command
  line.
- `robstride`: the driver and its plans, over a frame layout that is supplied.
- `tui`: commands, parameters, state and screen contents of the terminal tool.

Quantities are held as the wire holds them: codes, counts, or the bit patterns of
floating-point numbers. `app/` is ordinary Rust around the library: sockets,
serial ports, the terminal, and the conversion to SI units.

Buses are traits. What a driver did is stated over the history of its bus: every
frame it sent, and everything it received in between.
