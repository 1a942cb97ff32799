//! Control logic of a set of Raspberry Pi experiments: PWM duty-cycle
//! sequencing, ADC sample decoding, sysfs reading, and the worker/command
//! protocols of the threaded experiment modules.

pub mod adc;
pub mod channels;
pub mod cycle;
pub mod duty_worker;
pub mod pacing;
pub mod pwm;
pub mod slots;
pub mod sysfs;
