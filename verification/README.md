# ctre

Verified core of Rust bindings for CTRE motor controllers (Talon SRX and
Victor SPX) and the CANifier.

The devices are driven through the CTRE Phoenix C interface. The library in
`src/` decides everything that does not need the device: the numbers that the
interface uses for modes, frames, pins, slots and parameters; the fault flag
sets; the call that a `set` or a `follow` comes down to, including the packing
of follower IDs; the series of calls that write a configuration and how their
codes combine (the first failure wins); the series of parameter reads that
read a configuration back, stopping at the first failure; and the motion
profile status assembled from the device's outputs. Each of these is proved
against its contract with Verus, together with laws such as "`set` in follower
mode with device number `n` sends what `follow` sends for controller `n`".

Floating-point values never enter the library as numbers: settings and
demands that are `f64` are carried by their IEEE-754 bits.

`app/` holds the device-facing layer: the `extern "C"` declarations and the
methods that make the calls the library plans.

Layout:

- `src/canifier.rs`: CANifier frames and pins.
- `src/error.rs`: `ErrorCode` and the combination of the codes of a series of calls.
- `src/param.rs`: parameter numbers and `ReadSequence`, whose invariant is a type invariant.
- `src/motion.rs`: motion profile status.
- `src/mot/flags.rs`: flag sets held as bits: the lemmas that relate bit operations to set operations, the laws of the flag operations, unions of many flag sets, and the text that lists a set of flags.
- `src/mot/faults.rs`: `Faults` and `StickyFaults`.
- `src/mot/sensors.rs`: sensor sources and feedback devices, their numbers and the decoding of a read-back number (an unknown one gives the default).
- `src/mot/settings.rs`: device settings chosen among named values (velocity measurement period, auxiliary polarity, limit switches, neutral mode, inversion, sensor terms) and their device numbers.
- `src/mot/control.rs`: modes, demands, loops, slots and the `set` call.
- `src/mot/controller.rs`: `TalonSRX`, `VictorSPX`, the `MotorController` traits and following.
- `src/mot/config.rs`: configuration structures, their defaults, their write calls, read plans, and their assembly from the values read.
