//! Cyclic Redundancy Check (CRC)
use vstd::prelude::*;

verus! {

/// CRC polynomial
#[derive(Debug, Copy, Clone, PartialEq, Eq, Structural)]
pub enum Polynomial {
    /// CRC-32: 0x04C11DB7
    Crc32,
    /// CRC-16: 0x8005
    Crc16,
    /// CRC-CCITT: 0x1021
    CrcCcitt,
}

impl Polynomial {
    /// The code that selects the polynomial in the mode register.
    pub open spec fn code(self) -> u8 {
        match self {
            Polynomial::Crc16 => 1,
            Polynomial::CrcCcitt => 0,
            Polynomial::Crc32 => 2,
        }
    }
}

impl Default for Polynomial {
    fn default() -> (r: Self)
        ensures
            r == Polynomial::CrcCcitt,
    {
        Polynomial::CrcCcitt
    }
}

impl From<Polynomial> for u8 {
    fn from(polynomial: Polynomial) -> (r: u8) {
        match polynomial {
            Polynomial::Crc16 => 1,
            Polynomial::CrcCcitt => 0,
            _ => 2,
        }
    }
}

impl vstd::std_specs::convert::FromSpecImpl<Polynomial> for u8 {
    open spec fn obeys_from_spec() -> bool {
        true
    }

    open spec fn from_spec(polynomial: Polynomial) -> u8 {
        polynomial.code()
    }
}

/// CRC configuration
#[derive(Debug, Copy, Clone, PartialEq, Eq, Structural)]
pub struct Config {
    /// Polynomial to be used
    pub polynomial: Polynomial,
    /// Reverse bit order of input?
    pub bit_order_input_reverse: bool,
    /// 1's complement input?
    pub input_complement: bool,
    /// Reverse CRC bit order?
    pub bit_order_crc_reverse: bool,
    /// 1's complement CRC?
    pub crc_complement: bool,
    /// CRC Seed
    pub seed: u32,
}

impl Config {
    /// Create a new CRC config.
    #[must_use]
    pub fn new(
        polynomial: Polynomial,
        bit_order_input_reverse: bool,
        input_complement: bool,
        bit_order_crc_reverse: bool,
        crc_complement: bool,
        seed: u32,
    ) -> (r: Self)
        ensures
            r == (Config {
                polynomial,
                bit_order_input_reverse,
                input_complement,
                bit_order_crc_reverse,
                crc_complement,
                seed,
            }),
    {
        Config {
            polynomial,
            bit_order_input_reverse,
            input_complement,
            bit_order_crc_reverse,
            crc_complement,
            seed,
        }
    }

    /// The mode register that this configuration asks for.
    pub open spec fn mode(self) -> Mode {
        Mode {
            polynomial: self.polynomial.code(),
            bit_order_input_reverse: self.bit_order_input_reverse,
            input_complement: self.input_complement,
            bit_order_crc_reverse: self.bit_order_crc_reverse,
            crc_complement: self.crc_complement,
        }
    }
}

impl Default for Config {
    fn default() -> (r: Self)
        ensures
            r == (Config {
                polynomial: Polynomial::CrcCcitt,
                bit_order_input_reverse: false,
                input_complement: false,
                bit_order_crc_reverse: false,
                crc_complement: false,
                seed: 0xffff,
            }),
    {
        Config {
            polynomial: Polynomial::default(),
            bit_order_input_reverse: false,
            input_complement: false,
            bit_order_crc_reverse: false,
            crc_complement: false,
            seed: 0xffff,
        }
    }
}

/// The fields of the engine's mode register.
#[derive(Debug, Copy, Clone, PartialEq, Eq, Structural)]
pub struct Mode {
    /// The code of the polynomial.
    pub polynomial: u8,
    /// Reverse bit order of input?
    pub bit_order_input_reverse: bool,
    /// 1's complement input?
    pub input_complement: bool,
    /// Reverse CRC bit order?
    pub bit_order_crc_reverse: bool,
    /// 1's complement CRC?
    pub crc_complement: bool,
}

/// One write to a data register of the engine.
#[derive(Debug, Copy, Clone, PartialEq, Eq, Structural)]
pub enum Feed {
    /// A write to the 8-bit data register.
    Byte(u8),
    /// A write to the 16-bit data register.
    Halfword(u16),
    /// A write to the 32-bit data register.
    Word(u32),
}

/// The state of a CRC engine, as far as the driver deals with it.
pub struct Engine {
    /// The mode register.
    pub mode: Mode,
    /// The seed register, as last written.
    pub seed: u32,
    /// The writes to the data registers since the seed was last written,
    /// oldest first.
    pub fed: Seq<Feed>,
    /// The checksum register.
    pub sum: u32,
}

/// CRC instance trait.
///
/// The register block of a CRC engine. The engine computes the checksum;
/// what it computes is not stated here, only where software leaves it: the
/// checksum register holds whatever the engine made of mode, seed and data.
pub trait Instance: Sized {
    /// The state of the engine. It exists for contracts and proofs: an
    /// implementation for hardware gives it a body that nothing runs.
    spec fn view(&self) -> Engine;

    /// Enables the clock of the engine and resets it.
    fn enable_and_reset(&mut self)
        ensures
            final(self)@.fed == Seq::<Feed>::empty(),
    ;

    /// Writes the mode register.
    fn write_mode(&mut self, mode: Mode)
        ensures
            final(self)@.mode == mode,
            final(self)@.seed == old(self)@.seed,
            final(self)@.fed == old(self)@.fed,
    ;

    /// Writes the seed register, which starts a new checksum.
    fn write_seed(&mut self, seed: u32)
        ensures
            final(self)@.mode == old(self)@.mode,
            final(self)@.seed == seed,
            final(self)@.fed == Seq::<Feed>::empty(),
    ;

    /// Writes a data register.
    fn write_data(&mut self, feed: Feed)
        ensures
            final(self)@.mode == old(self)@.mode,
            final(self)@.seed == old(self)@.seed,
            final(self)@.fed == old(self)@.fed.push(feed),
    ;

    /// Reads the checksum register.
    fn read_sum(&self) -> (r: u32)
        ensures
            r == self@.sum,
    ;
}

/// A CRC engine in software, for a bench: it keeps the registers in ordinary
/// memory and records every write to a data register. It computes nothing;
/// its checksum register holds what the bench has put there.
pub struct SimEngine {
    mode: Mode,
    seed: u32,
    fed: Vec<Feed>,
    sum: u32,
}

impl Instance for SimEngine {
    closed spec fn view(&self) -> Engine {
        Engine { mode: self.mode, seed: self.seed, fed: self.fed@, sum: self.sum }
    }

    fn enable_and_reset(&mut self) {
        self.fed.clear();
    }

    fn write_mode(&mut self, mode: Mode) {
        self.mode = mode;
    }

    fn write_seed(&mut self, seed: u32) {
        self.seed = seed;
        self.fed.clear();
    }

    fn write_data(&mut self, feed: Feed) {
        self.fed.push(feed);
    }

    fn read_sum(&self) -> (r: u32) {
        self.sum
    }
}

impl SimEngine {
    /// Create an engine with all registers zero and nothing fed.
    pub fn new() -> (r: Self)
        ensures
            r@ == (Engine {
                mode: Mode {
                    polynomial: 0,
                    bit_order_input_reverse: false,
                    input_complement: false,
                    bit_order_crc_reverse: false,
                    crc_complement: false,
                },
                seed: 0,
                fed: Seq::empty(),
                sum: 0,
            }),
    {
        SimEngine {
            mode: Mode {
                polynomial: 0,
                bit_order_input_reverse: false,
                input_complement: false,
                bit_order_crc_reverse: false,
                crc_complement: false,
            },
            seed: 0,
            fed: Vec::new(),
            sum: 0,
        }
    }

    /// Bench side: puts `sum` into the checksum register.
    pub fn set_sum(&mut self, sum: u32)
        ensures
            final(self)@ == (Engine { sum, ..old(self)@ }),
    {
        self.sum = sum;
    }

    /// The mode register.
    pub fn mode(&self) -> (r: Mode)
        ensures
            r == self@.mode,
    {
        self.mode
    }

    /// The seed register.
    pub fn seed(&self) -> (r: u32)
        ensures
            r == self@.seed,
    {
        self.seed
    }

    /// The writes to the data registers since the seed was last written.
    pub fn fed(&self) -> (r: &Vec<Feed>)
        ensures
            r@ == self@.fed,
    {
        &self.fed
    }
}

/// CRC driver.
pub struct Crc<T: Instance> {
    info: T,
    _config: Config,
}

impl<T: Instance> Crc<T> {
    /// The state of the engine that the driver holds.
    pub closed spec fn engine(&self) -> Engine {
        self.info@
    }

    /// The configuration that the driver was made with.
    pub closed spec fn config(&self) -> Config {
        self._config
    }

    /// Instantiates new CRC peripheral and initializes to default values.
    pub fn new(peripheral: T, config: Config) -> (r: Self)
        ensures
            r.config() == config,
            r.engine().mode == config.mode(),
            r.engine().seed == config.seed,
            r.engine().fed == Seq::<Feed>::empty(),
    {
        let mut peripheral = peripheral;
        peripheral.enable_and_reset();
        let mut instance = Crc { info: peripheral, _config: config };
        instance.reconfigure();
        instance
    }

    /// Reconfigured the CRC peripheral.
    fn reconfigure(&mut self)
        ensures
            final(self).config() == old(self).config(),
            final(self).engine().mode == old(self).config().mode(),
            final(self).engine().seed == old(self).config().seed,
            final(self).engine().fed == Seq::<Feed>::empty(),
    {
        let mode = Mode {
            polynomial: u8::from(self._config.polynomial),
            bit_order_input_reverse: self._config.bit_order_input_reverse,
            input_complement: self._config.input_complement,
            bit_order_crc_reverse: self._config.bit_order_crc_reverse,
            crc_complement: self._config.crc_complement,
        };
        self.info.write_mode(mode);
        self.info.write_seed(self._config.seed);
    }

    /// Feeds a byte into the CRC peripheral. Returns the computed checksum.
    pub fn feed_byte(&mut self, byte: u8) -> (r: u32)
        ensures
            final(self).config() == old(self).config(),
            final(self).engine().mode == old(self).engine().mode,
            final(self).engine().seed == old(self).engine().seed,
            final(self).engine().fed == old(self).engine().fed.push(Feed::Byte(byte)),
            r == final(self).engine().sum,
    {
        self.info.write_data(Feed::Byte(byte));
        self.info.read_sum()
    }

    /// Feeds an slice of bytes into the CRC peripheral. Returns the computed checksum.
    pub fn feed_bytes(&mut self, bytes: &[u8]) -> (r: u32)
        ensures
            final(self).config() == old(self).config(),
            final(self).engine().mode == old(self).engine().mode,
            final(self).engine().seed == old(self).engine().seed,
            final(self).engine().fed == old(self).engine().fed + bytes@.map_values(
                |b: u8| Feed::Byte(b),
            ),
            r == final(self).engine().sum,
    {
        let mut i: usize = 0;
        while i < bytes.len()
            invariant
                i <= bytes@.len(),
                self.config() == old(self).config(),
                self.engine().mode == old(self).engine().mode,
                self.engine().seed == old(self).engine().seed,
                self.engine().fed == old(self).engine().fed + bytes@.take(i as int).map_values(
                    |b: u8| Feed::Byte(b),
                ),
            decreases bytes@.len() - i,
        {
            self.info.write_data(Feed::Byte(bytes[i]));
            i = i + 1;
        }
        self.info.read_sum()
    }

    /// Feeds a halfword into the CRC peripheral. Returns the computed checksum.
    pub fn feed_halfword(&mut self, halfword: u16) -> (r: u32)
        ensures
            final(self).config() == old(self).config(),
            final(self).engine().mode == old(self).engine().mode,
            final(self).engine().seed == old(self).engine().seed,
            final(self).engine().fed == old(self).engine().fed.push(Feed::Halfword(halfword)),
            r == final(self).engine().sum,
    {
        self.info.write_data(Feed::Halfword(halfword));
        self.info.read_sum()
    }

    /// Feeds an slice of halfwords into the CRC peripheral. Returns the computed checksum.
    pub fn feed_halfwords(&mut self, halfwords: &[u16]) -> (r: u32)
        ensures
            final(self).config() == old(self).config(),
            final(self).engine().mode == old(self).engine().mode,
            final(self).engine().seed == old(self).engine().seed,
            final(self).engine().fed == old(self).engine().fed + halfwords@.map_values(
                |h: u16| Feed::Halfword(h),
            ),
            r == final(self).engine().sum,
    {
        let mut i: usize = 0;
        while i < halfwords.len()
            invariant
                i <= halfwords@.len(),
                self.config() == old(self).config(),
                self.engine().mode == old(self).engine().mode,
                self.engine().seed == old(self).engine().seed,
                self.engine().fed == old(self).engine().fed + halfwords@.take(
                    i as int,
                ).map_values(|h: u16| Feed::Halfword(h)),
            decreases halfwords@.len() - i,
        {
            self.info.write_data(Feed::Halfword(halfwords[i]));
            i = i + 1;
        }
        self.info.read_sum()
    }

    /// Feeds a words into the CRC peripheral. Returns the computed checksum.
    pub fn feed_word(&mut self, word: u32) -> (r: u32)
        ensures
            final(self).config() == old(self).config(),
            final(self).engine().mode == old(self).engine().mode,
            final(self).engine().seed == old(self).engine().seed,
            final(self).engine().fed == old(self).engine().fed.push(Feed::Word(word)),
            r == final(self).engine().sum,
    {
        self.info.write_data(Feed::Word(word));
        self.info.read_sum()
    }

    /// Feeds an slice of words into the CRC peripheral. Returns the computed checksum.
    pub fn feed_words(&mut self, words: &[u32]) -> (r: u32)
        ensures
            final(self).config() == old(self).config(),
            final(self).engine().mode == old(self).engine().mode,
            final(self).engine().seed == old(self).engine().seed,
            final(self).engine().fed == old(self).engine().fed + words@.map_values(
                |w: u32| Feed::Word(w),
            ),
            r == final(self).engine().sum,
    {
        let mut i: usize = 0;
        while i < words.len()
            invariant
                i <= words@.len(),
                self.config() == old(self).config(),
                self.engine().mode == old(self).engine().mode,
                self.engine().seed == old(self).engine().seed,
                self.engine().fed == old(self).engine().fed + words@.take(i as int).map_values(
                    |w: u32| Feed::Word(w),
                ),
            decreases words@.len() - i,
        {
            self.info.write_data(Feed::Word(words[i]));
            i = i + 1;
        }
        self.info.read_sum()
    }

    /// Gives the engine back.
    pub fn release(self) -> (r: T)
        ensures
            r@ == self.engine(),
    {
        self.info
    }
}

} // verus!
