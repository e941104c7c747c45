use vstd::prelude::*;

verus! {

/// One unit of multi-player serial traffic: a 16-bit word split into a
/// command byte (the high 8 bits) and a data byte (the low 8 bits).
/// The same shape describes both the word the host sends and the words
/// the client slots answer with.
#[derive(Clone, Copy, PartialEq, Eq, Structural)]
pub struct ExchangeUnit {
    pub command: u8,
    pub data: u8,
}

/// The wire form of a command/data pair: `(command << 8) | data`,
/// written arithmetically.
pub open spec fn word_of(command: u8, data: u8) -> u16 {
    (command * 256 + data) as u16
}

/// The command byte (high 8 bits) of a wire word.
pub open spec fn command_of(word: u16) -> u8 {
    (word / 256) as u8
}

/// The data byte (low 8 bits) of a wire word.
pub open spec fn data_of(word: u16) -> u8 {
    (word % 256) as u8
}

impl ExchangeUnit {
    pub fn new(command: u8, data: u8) -> (r: Self)
        ensures
            r.command == command,
            r.data == data,
    {
        ExchangeUnit { command, data }
    }

    /// Split a wire word into its command and data bytes.
    pub fn from_word(word: u16) -> (r: Self)
        ensures
            r.command == command_of(word),
            r.data == data_of(word),
    {
        ExchangeUnit { command: (word / 256) as u8, data: (word % 256) as u8 }
    }

    /// Pack the unit back into its wire word.
    pub fn to_word(self) -> (w: u16)
        ensures
            w == word_of(self.command, self.data),
    {
        self.command as u16 * 256 + self.data as u16
    }
}

/// The arithmetic packing equals the shift-and-or packing.
pub proof fn lemma_word_is_shift_or(command: u8, data: u8)
    ensures
        word_of(command, data) == ((command as u16) << 8) | (data as u16),
{
    assert(((command * 256 + data) as u16) == ((command as u16) << 8) | (data as u16))
        by (bit_vector);
}

/// Round trip: packing a command/data pair into a wire word and
/// splitting it again yields the pair unchanged.
pub proof fn lemma_unit_round_trip(command: u8, data: u8)
    ensures
        command_of(word_of(command, data)) == command,
        data_of(word_of(command, data)) == data,
{
    assert(((((command * 256 + data) as u16) / 256) as u8) == command) by (bit_vector);
    assert(((((command * 256 + data) as u16) % 256) as u8) == data) by (bit_vector);
}

/// Round trip in the other direction: a wire word split into bytes and
/// packed again is unchanged.
pub proof fn lemma_word_round_trip(word: u16)
    ensures
        word_of(command_of(word), data_of(word)) == word,
{
    assert(((((word / 256) as u8) * 256 + ((word % 256) as u8)) as u16) == word) by (bit_vector);
}

} // verus!
