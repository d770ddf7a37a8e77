//! Hashcrypt
use vstd::prelude::*;
use core::marker::PhantomData;

verus! {

trait Sealed {

}

/// Asynchronous or blocking mode
#[allow(private_bounds)]
pub trait Mode: Sealed {

}

/// Blocking mode
pub struct Blocking {}

impl Sealed for Blocking {

}

impl Mode for Blocking {

}

/// Asynchronous mode
pub struct Async {}

impl Sealed for Async {

}

impl Mode for Async {

}

/// Trait for compatible DMA channels
pub trait HashcryptDma {

}

/// Hashcrypt mode
#[derive(Debug, Copy, Clone, PartialEq, Eq, Structural)]
#[non_exhaustive]
pub enum Algorithm {
    /// SHA256
    SHA256,
}

impl Algorithm {
    /// The code that selects the algorithm in the control register.
    pub open spec fn code(self) -> u8 {
        match self {
            Algorithm::SHA256 => 0x2,
        }
    }
}

impl From<Algorithm> for u8 {
    fn from(value: Algorithm) -> (r: Self) {
        match value {
            Algorithm::SHA256 => 0x2,
        }
    }
}

impl vstd::std_specs::convert::FromSpecImpl<Algorithm> for u8 {
    open spec fn obeys_from_spec() -> bool {
        true
    }

    open spec fn from_spec(value: Algorithm) -> u8 {
        value.code()
    }
}

/// What the mode field of the control register selects.
#[derive(Debug, Copy, Clone, PartialEq, Eq, Structural)]
pub enum Select {
    /// The engine is disabled.
    Disabled,
    /// The algorithm with this code.
    Code(u8),
}

/// One write to the control register. A write sets every field: what it
/// does not name goes back to its reset value.
#[derive(Debug, Copy, Clone, PartialEq, Eq, Structural)]
pub struct Control {
    /// The mode field.
    pub mode: Select,
    /// Whether the write starts a new hash.
    pub new_hash: bool,
    /// Whether the engine asks the DMA for its input.
    pub dma: bool,
}

/// The two writes to the control register that start `algorithm`: the first
/// disables the engine and starts a new hash, the second selects the
/// algorithm, starts a new hash and, with `dma`, lets the engine ask the DMA
/// for its input.
pub open spec fn start_sequence(algorithm: Algorithm, dma: bool) -> Seq<Control> {
    seq![
        Control { mode: Select::Disabled, new_hash: true, dma: false },
        Control { mode: Select::Code(algorithm.code()), new_hash: true, dma },
    ]
}

/// The register block of a hash engine, with the kind of DMA channel that
/// can feed it.
pub trait Instance: Sized {
    /// The DMA channels that the engine can be fed by.
    type Dma: HashcryptDma;

    /// Every write to the control register since the engine was last reset,
    /// oldest first. It exists for contracts and proofs: an implementation
    /// for hardware gives it a body that nothing runs.
    spec fn view(&self) -> Seq<Control>;

    /// Enables the clock of the engine and resets it.
    fn enable_and_reset(&mut self)
        ensures
            final(self)@ == Seq::<Control>::empty(),
    ;

    /// Writes the control register.
    fn write_ctrl(&mut self, ctrl: Control)
        ensures
            final(self)@ == old(self)@.push(ctrl),
    ;
}

/// A DMA channel of the bench.
pub struct SimChannel {
    /// The number of the channel.
    pub number: u8,
}

impl HashcryptDma for SimChannel {

}

/// A hash engine in software, for a bench: it records the writes to its
/// control register and hashes nothing.
pub struct SimEngine {
    written: Vec<Control>,
}

impl Instance for SimEngine {
    type Dma = SimChannel;

    closed spec fn view(&self) -> Seq<Control> {
        self.written@
    }

    fn enable_and_reset(&mut self) {
        self.written.clear();
    }

    fn write_ctrl(&mut self, ctrl: Control) {
        self.written.push(ctrl);
    }
}

impl SimEngine {
    /// Create an engine after reset.
    pub fn new() -> (r: Self)
        ensures
            r@ == Seq::<Control>::empty(),
    {
        SimEngine { written: Vec::new() }
    }

    /// Every write to the control register since the last reset.
    pub fn written(&self) -> (r: &Vec<Control>)
        ensures
            r@ == self@,
    {
        &self.written
    }
}

/// Hashcrypt driver
pub struct Hashcrypt<T: Instance, M: Mode> {
    hashcrypt: T,
    dma_ch: Option<T::Dma>,
    _mode: PhantomData<M>,
}

impl<T: Instance, M: Mode> Hashcrypt<T, M> {
    /// The writes to the control register of the engine that the driver
    /// holds.
    pub closed spec fn written(&self) -> Seq<Control> {
        self.hashcrypt@
    }

    /// The DMA channel that the driver holds.
    pub closed spec fn dma(&self) -> Option<T::Dma> {
        self.dma_ch
    }

    /// Instantiate new Hashcrypt peripheral
    fn new_inner(peripheral: T, dma_ch: Option<T::Dma>) -> (r: Self)
        ensures
            r.written() == Seq::<Control>::empty(),
            r.dma() == dma_ch,
    {
        let mut peripheral = peripheral;
        peripheral.enable_and_reset();
        Hashcrypt { hashcrypt: peripheral, dma_ch, _mode: PhantomData }
    }

    /// Starts `algorithm` on the engine.
    fn start_algorithm(&mut self, algorithm: Algorithm, dma: bool)
        ensures
            final(self).written() == old(self).written() + start_sequence(algorithm, dma),
            final(self).dma() == old(self).dma(),
    {
        self.hashcrypt.write_ctrl(Control { mode: Select::Disabled, new_hash: true, dma: false });
        self.hashcrypt.write_ctrl(
            Control { mode: Select::Code(u8::from(algorithm)), new_hash: true, dma },
        );
    }

    /// Gives the engine and the DMA channel back.
    pub fn release(self) -> (r: (T, Option<T::Dma>))
        ensures
            r.0@ == self.written(),
            r.1 == self.dma(),
    {
        (self.hashcrypt, self.dma_ch)
    }
}

impl<T: Instance> Hashcrypt<T, Blocking> {
    /// Create a new instance
    pub fn new_blocking(peripheral: T) -> (r: Self)
        ensures
            r.written() == Seq::<Control>::empty(),
            r.dma() is None,
    {
        Self::new_inner(peripheral, None)
    }

    /// Start a new SHA256 hash
    pub fn new_sha256(&mut self)
        ensures
            final(self).written() == old(self).written() + start_sequence(
                Algorithm::SHA256,
                false,
            ),
            final(self).dma() == old(self).dma(),
    {
        self.start_algorithm(Algorithm::SHA256, false);
    }
}

impl<T: Instance> Hashcrypt<T, Async> {
    /// Create a new instance
    pub fn new_async(peripheral: T, dma_ch: T::Dma) -> (r: Self)
        ensures
            r.written() == Seq::<Control>::empty(),
            r.dma() == Some(dma_ch),
    {
        Self::new_inner(peripheral, Some(dma_ch))
    }

    /// Start a new SHA256 hash
    pub fn new_sha256(&mut self)
        ensures
            final(self).written() == old(self).written() + start_sequence(
                Algorithm::SHA256,
                true,
            ),
            final(self).dma() == old(self).dma(),
    {
        self.start_algorithm(Algorithm::SHA256, true);
    }
}

} // verus!
