//! Driver for the ultrasonic sensor array on the SPI bus: per-sensor
//! reading history and noise-suppressing averaging are verified here, and
//! only the raw one-byte SPI exchange is trusted.

use vstd::prelude::*;
use vstd::arithmetic::div_mod::{lemma_div_is_ordered, lemma_div_multiples_vanish};

verus! {

/// Declares spidev::Spidev, the open SPI device handle, as an opaque
/// outside type so it can sit in a field.
#[verifier::external_type_specification]
#[verifier::external_body]
pub struct ExSpidev(spidev::Spidev);

/// A failure of the SPI transport under an exchange.
#[derive(Debug, Clone, Copy, PartialEq, Eq, Structural)]
pub enum OctasonicError {
    /// The bus rejected the transfer.
    Spi,
}

/// Relies on spidev::Spidev::open: opens the SPI device node read-write.
#[verifier::external_body]
fn spi_open(path: &str) -> (r: Result<spidev::Spidev, std::io::Error>) {
    spidev::Spidev::open(path)
}

/// Relies on spidev::Spidev::configure: applies an 8-bit-word, 20 kHz,
/// mode-0 configuration to the device.
#[verifier::external_body]
fn spi_configure(spi: &mut spidev::Spidev) -> (r: Result<(), std::io::Error>) {
    let options = spidev::SpidevOptions::new().bits_per_word(8).max_speed_hz(20_000).mode(
        spidev::SpiModeFlags::SPI_MODE_0,
    ).build();
    spi.configure(&options)
}

/// Relies on spidev::Spidev::transfer with a one-byte full-duplex transfer:
/// shifts the command byte out and yields the byte the device shifted back.
#[verifier::external_body]
fn spi_transfer_byte(spi: &spidev::Spidev, b: u8) -> (r: Result<u8, std::io::Error>) {
    let tx = [b];
    let mut rx = [0u8; 1];
    let mut t = spidev::SpidevTransfer::read_write(&tx, &mut rx);
    match spi.transfer(&mut t) {
        Ok(()) => Ok(rx[0]),
        Err(e) => Err(e),
    }
}

/// The sum of a sequence of byte readings.
pub open spec fn sum_of(s: Seq<u8>) -> int
    decreases s.len(),
{
    if s.len() == 0 {
        0
    } else {
        sum_of(s.drop_last()) + s.last()
    }
}

/// Slide a fresh reading onto a history (dropping the oldest) and return the
/// truncated mean of the window.
pub fn update_and_average(history: &mut Vec<u8>, x: u8) -> (r: u8)
    requires
        1 <= old(history)@.len() <= 0xffff_ffff,
    ensures
        final(history)@ == old(history)@.skip(1).push(x),
        final(history)@.len() == old(history)@.len(),
        r as int == sum_of(final(history)@) / (final(history)@.len() as int),
{
    history.remove(0);
    history.push(x);
    proof {
        assert(old(history)@.remove(0) =~= old(history)@.skip(1));
    }
    let n = history.len();
    let mut total: u64 = 0;
    let mut i: usize = 0;
    while i < n
        invariant
            i <= n == history@.len() <= 0xffff_ffff,
            total == sum_of(history@.take(i as int)),
            total <= 255 * i,
        decreases n - i,
    {
        proof {
            assert(history@.take(i as int + 1).drop_last() =~= history@.take(i as int));
            assert(history@.take(i as int + 1).last() == history@[i as int]);
        }
        total = total + history[i] as u64;
        i = i + 1;
    }
    proof {
        assert(history@.take(n as int) =~= history@);
        lemma_div_is_ordered(0, total as int, n as int);
        lemma_div_is_ordered(total as int, 255 * n, n as int);
        lemma_div_multiples_vanish(255, n as int);
    }
    (total / (n as u64)) as u8
}

/// The ultrasonic array: an SPI device plus one sliding window of recent
/// readings per sensor.
pub struct Octasonic {
    spi: spidev::Spidev,
    values: Vec<Vec<u8>>,
}

impl Octasonic {
    /// How many sensor history windows are kept.
    pub closed spec fn history_count(self) -> int {
        self.values@.len() as int
    }

    /// The sliding window of recent readings of sensor `i`.
    pub closed spec fn history(self, i: int) -> Seq<u8> {
        self.values@[i]@
    }

    /// Every sensor's history window is non-empty and of machine-bounded
    /// length, so the averaging is well defined.
    pub closed spec fn wf(&self) -> bool {
        forall|i: int|
            0 <= i < self.values@.len() ==> 1 <= (#[trigger] self.values@[i])@.len()
                <= 0xffff_ffff
    }

    /// Open and configure the bus and tell the device how many sensors are
    /// attached. Each sensor's history starts filled with readings of 200.
    pub fn new(sensor_count: usize, sample_count: usize) -> (r: Result<Octasonic, OctasonicError>)
        requires
            1 <= sensor_count <= 8,
            1 <= sample_count <= 0xffff_ffff,
        ensures
            r matches Ok(o) ==> o.wf() && o.history_count() == sensor_count,
    {
        let mut spi = match spi_open("/dev/spidev0.0") {
            Ok(s) => s,
            Err(_) => {
                return Err(OctasonicError::Spi);
            },
        };
        match spi_configure(&mut spi) {
            Ok(()) => {},
            Err(_) => {
                return Err(OctasonicError::Spi);
            },
        }
        let mut v: Vec<Vec<u8>> = Vec::new();
        let mut i: usize = 0;
        while i < sensor_count
            invariant
                i <= sensor_count,
                v@.len() == i,
                forall|k: int| 0 <= k < i ==> (#[trigger] v@[k])@.len() == sample_count,
                1 <= sample_count <= 0xffff_ffff,
            decreases sensor_count - i,
        {
            let mut h: Vec<u8> = Vec::new();
            let mut j: usize = 0;
            while j < sample_count
                invariant
                    j <= sample_count,
                    h@.len() == j,
                decreases sample_count - j,
            {
                h.push(200);
                j = j + 1;
            }
            v.push(h);
            i = i + 1;
        }
        let o = Octasonic { spi, values: v };
        o.set_sensor_count(sensor_count as u8)?;
        Ok(o)
    }

    /// How many sensor history windows are kept.
    pub fn sensor_slots(&self) -> (r: usize)
        ensures
            r == self.history_count(),
    {
        self.values.len()
    }

    /// One full-duplex byte exchange with the device.
    fn transfer(&self, b: u8) -> (r: Result<u8, OctasonicError>) {
        match spi_transfer_byte(&self.spi, b) {
            Ok(x) => Ok(x),
            Err(_) => Err(OctasonicError::Spi),
        }
    }

    /// Query how many sensors the device believes are attached.
    pub fn get_sensor_count(&self) -> (r: Result<u8, OctasonicError>) {
        let _ = self.transfer(0x20)?;
        self.transfer(0x00)
    }

    /// Tell the device how many sensors are attached.
    pub fn set_sensor_count(&self, n: u8) -> (r: Result<(), OctasonicError>)
        requires
            1 <= n <= 8,
    {
        let _ = self.transfer(0x10 | n)?;
        Ok(())
    }

    /// One raw reading of sensor `n`.
    fn _get_sensor_reading(&self, n: u8) -> (r: Result<u8, OctasonicError>) {
        let _ = self.transfer(0x30 | n)?;
        self.transfer(0x00)
    }

    /// Take a raw reading of sensor `n`, slide it onto that sensor's
    /// history, and return the truncated mean of the window.
    pub fn get_sensor_reading(&mut self, n: u8) -> (r: Result<u8, OctasonicError>)
        requires
            old(self).wf(),
            (n as int) < old(self).history_count(),
        ensures
            final(self).wf(),
            final(self).history_count() == old(self).history_count(),
            r matches Ok(avg) ==> avg as int == sum_of(final(self).history(n as int)) / (
            final(self).history(n as int).len() as int),
    {
        let x = self._get_sensor_reading(n)?;
        let mut h = self.values.remove(n as usize);
        let avg = update_and_average(&mut h, x);
        let ghost h_new = h@;
        self.values.insert(n as usize, h);
        proof {
            assert(self.values@ =~= old(self).values@.update(n as int, self.values@[n as int]));
            assert(self.values@[n as int]@ == h_new);
        }
        Ok(avg)
    }
}

} // verus!
