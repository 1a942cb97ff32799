use vstd::prelude::*;

verus! {

/// The value of two bytes read most significant first.
pub open spec fn spec_be_value(bytes: [u8; 2]) -> int {
    bytes[0] * 256 + bytes[1]
}

/// The ADC reading held in a two-byte SPI read buffer, most significant byte
/// first (as `u16::from_be_bytes` reads it).
pub fn reading_from_be_bytes(bytes: [u8; 2]) -> (v: u16)
    ensures
        v == spec_be_value(bytes),
{
    let hi = bytes[0] as u16;
    let lo = bytes[1] as u16;
    hi * 256 + lo
}

/// The ADC reading in the read buffer less the offset, as a signed count.
pub fn offset_counts(bytes: [u8; 2], offset_adc: i32) -> (counts: i32)
    requires
        i32::MIN <= spec_be_value(bytes) - offset_adc <= i32::MAX,
    ensures
        counts == spec_be_value(bytes) - offset_adc,
{
    let output = reading_from_be_bytes(bytes) as i32;
    output - offset_adc
}

/// Abstract state of an [`AdcChannel`].
pub struct AdcState {
    pub offset_adc: i32,
    pub counter: i32,
}

/// An ADC sampling loop: the offset subtracted from every reading and the
/// number of samples taken.
pub struct AdcChannel {
    offset_adc: i32,
    counter: i32,
}

impl View for AdcChannel {
    type V = AdcState;

    closed spec fn view(&self) -> AdcState {
        AdcState { offset_adc: self.offset_adc, counter: self.counter }
    }
}

impl AdcChannel {
    /// A channel with the given offset that has taken no samples.
    pub fn new(offset_adc: i32) -> (c: Self)
        ensures
            c@ == (AdcState { offset_adc, counter: 0 }),
    {
        AdcChannel { offset_adc, counter: 0 }
    }

    /// The offset subtracted from every reading.
    pub fn offset_adc(&self) -> (r: i32)
        ensures
            r == self@.offset_adc,
    {
        self.offset_adc
    }

    /// The number of samples taken.
    pub fn counter(&self) -> (r: i32)
        ensures
            r == self@.counter,
    {
        self.counter
    }

    /// Takes one sample from the read buffer: the reading less the offset;
    /// the sample counter goes up by one.
    pub fn record(&mut self, bytes: [u8; 2]) -> (counts: i32)
        requires
            i32::MIN <= spec_be_value(bytes) - old(self)@.offset_adc <= i32::MAX,
            old(self)@.counter < i32::MAX,
        ensures
            counts == spec_be_value(bytes) - old(self)@.offset_adc,
            final(self)@.offset_adc == old(self)@.offset_adc,
            final(self)@.counter == old(self)@.counter + 1,
    {
        let counts = offset_counts(bytes, self.offset_adc);
        self.counter = self.counter + 1;
        counts
    }
}

} // verus!
