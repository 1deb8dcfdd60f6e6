# washinoc

Control logic of a small touch-operated washing machine (ESP32, H-bridge
motor driver, four-digit TM1637 display), verified with Verus.

- `src/` — the verified library:
  - `domain/` — wash programs (`WashMode`), the motor's wash cycle
    (`MotorPhase`: forward → stop → reverse → stop) and the countdown
    (`RemainingTime`).
  - `app/timing.rs` — microsecond `Instant` and the one-shot `SoftTimer`.
  - `drivers/` — the touch pad's press tracking (`TouchButton::poll`), the
    motor driver's input duties, and the display's segment patterns.
  - `app/controller.rs` — the state machine of the main loop:
    `Controller::step` takes the time and the button event of one poll and
    returns the motor and display commands, with an exact contract
    (`step_result`).
  - `app/properties.rs` — properties proved over every poll and every run:
    consistency of the controller, no direct forward/reverse switch, and the
    direction-change guard (the motor stands still at least
    `MOTOR_DIRECTION_CHANGE_GUARD_MS` before turning the other way, across
    pauses), that no program ever has more time left than its mode's length
    (so the countdown stays within 10:00), also for the button and
    controller together.
- `app/` — the firmware around it: board setup, the main loop that reads the
  clock and the pad and carries out the commands, and the hardware drivers
  (esp-hal, tm1637-embedded-hal).
- `tests/` — tests of the library on concrete values.
