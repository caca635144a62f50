use vstd::prelude::*;

verus! {

/// The status code the native library returns from a successful call; every
/// other value reports a failure.
pub const NVML_SUCCESS: u32 = 0;

/// Raw discriminant the native library uses for a green unit LED.
pub const LED_COLOR_GREEN: u32 = 0;

/// Raw discriminant the native library uses for an amber unit LED.
pub const LED_COLOR_AMBER: u32 = 1;

/// Length in bytes of the fixed-size cause buffer in the raw LED struct.
pub const LED_CAUSE_LEN: usize = 256;

/// The raw LED state struct exactly as the native library fills it: a
/// discriminant naming the LED color and a fixed-size, null-terminated byte
/// buffer holding the diagnostic cause text.
///
/// A value of this type is transient: the native call fills it and the
/// conversion layer consumes it immediately; nothing retains it.
#[derive(Clone, Copy, Debug)]
pub struct RawLedState {
    /// Null-terminated diagnostic text, valid only up to the first null
    /// byte; the bytes are not assumed to be validly encoded.
    pub cause: [u8; LED_CAUSE_LEN],
    /// The raw color discriminant; values outside the known set must be
    /// rejected, never defaulted.
    pub color: u32,
}

} // verus!
