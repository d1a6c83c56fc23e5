//! Audio samples as the bytes that the sound server reads and writes.

use vstd::prelude::*;

verus! {

/// The order of the two bytes of a sample.
#[derive(Debug, Clone, Copy, PartialEq, Eq, Structural)]
pub enum ByteOrder {
    /// The low byte first.
    Little,
    /// The high byte first.
    Big,
}

/// The two's complement of `sample`, as a number from 0 to 65535.
pub open spec fn complement(sample: i16) -> int {
    if sample >= 0 {
        sample as int
    } else {
        sample + 0x1_0000
    }
}

/// The byte at index `k`, 0 or 1, of `sample`.
pub open spec fn sample_byte(sample: i16, k: int, order: ByteOrder) -> u8 {
    if (k == 0) == (order is Little) {
        (complement(sample) % 256) as u8
    } else {
        (complement(sample) / 256) as u8
    }
}

/// The sample whose bytes are `first` and `second`.
pub open spec fn sample_of(first: u8, second: u8, order: ByteOrder) -> i16 {
    let n = match order {
        ByteOrder::Little => first + 256 * second,
        ByteOrder::Big => 256 * first + second,
    };
    if n < 0x8000 {
        n as i16
    } else {
        (n - 0x1_0000) as i16
    }
}

/// The bytes of `samples`, one sample after the other.
pub open spec fn pcm_bytes(samples: Seq<i16>, order: ByteOrder) -> Seq<u8> {
    Seq::new(2 * samples.len(), |i: int| sample_byte(samples[i / 2], i % 2, order))
}

/// The samples that `bytes` hold, two bytes each.
pub open spec fn pcm_samples(bytes: Seq<u8>, order: ByteOrder) -> Seq<i16> {
    Seq::new(bytes.len() / 2, |i: int| sample_of(bytes[2 * i], bytes[2 * i + 1], order))
}

/// Lays out `samples` as bytes.
pub fn samples_to_bytes(samples: &[i16], order: ByteOrder) -> (r: Vec<u8>)
    ensures
        r@ == pcm_bytes(samples@, order),
        r@.len() == 2 * samples@.len(),
        forall|i: int|
            0 <= i < samples@.len() ==> {
                let low = r@[if order is Little {
                    2 * i
                } else {
                    2 * i + 1
                }];
                let high = r@[if order is Little {
                    2 * i + 1
                } else {
                    2 * i
                }];
                #[trigger] samples@[i] == low + 256 * high - if high < 128 {
                    0int
                } else {
                    65536
                }
            },
{
    let mut bytes: Vec<u8> = Vec::new();
    let mut i: usize = 0;
    while i < samples.len()
        invariant
            i <= samples@.len(),
            bytes@ == pcm_bytes(samples@, order).take(2 * i),
        decreases samples@.len() - i,
    {
        let sample: i16 = samples[i];
        let n: i32 = if sample >= 0 {
            sample as i32
        } else {
            sample as i32 + 0x1_0000
        };
        let low: u8 = (n % 256) as u8;
        let high: u8 = (n / 256) as u8;
        match order {
            ByteOrder::Little => {
                bytes.push(low);
                bytes.push(high);
            },
            ByteOrder::Big => {
                bytes.push(high);
                bytes.push(low);
            },
        }
        assert(bytes@ =~= pcm_bytes(samples@, order).take(2 * (i + 1)));
        i = i + 1;
    }
    assert(bytes@ =~= pcm_bytes(samples@, order));
    proof {
        law_bytes_make_up_the_samples(samples@, order);
    }
    bytes
}

/// Reads samples from their bytes.
pub fn bytes_to_samples(bytes: &[u8], order: ByteOrder) -> (r: Vec<i16>)
    requires
        bytes@.len() % 2 == 0,
    ensures
        r@ == pcm_samples(bytes@, order),
        2 * r@.len() == bytes@.len(),
        forall|i: int|
            0 <= i < r@.len() ==> {
                let low = bytes@[if order is Little {
                    2 * i
                } else {
                    2 * i + 1
                }];
                let high = bytes@[if order is Little {
                    2 * i + 1
                } else {
                    2 * i
                }];
                #[trigger] r@[i] == low + 256 * high - if high < 128 {
                    0int
                } else {
                    65536
                }
            },
{
    let mut samples: Vec<i16> = Vec::new();
    let mut i: usize = 0;
    while i < bytes.len() / 2
        invariant
            i <= bytes@.len() / 2,
            samples@ == pcm_samples(bytes@, order).take(i as int),
        decreases bytes@.len() / 2 - i,
    {
        let first: i32 = bytes[2 * i] as i32;
        let second: i32 = bytes[2 * i + 1] as i32;
        let n: i32 = match order {
            ByteOrder::Little => first + 256 * second,
            ByteOrder::Big => 256 * first + second,
        };
        let sample: i16 = if n < 0x8000 {
            n as i16
        } else {
            (n - 0x1_0000) as i16
        };
        samples.push(sample);
        assert(samples@ =~= pcm_samples(bytes@, order).take(i + 1));
        i = i + 1;
    }
    assert(samples@ =~= pcm_samples(bytes@, order));
    samples
}

/// Samples that are laid out as bytes are read back unchanged.
pub proof fn law_samples_survive_bytes(samples: Seq<i16>, order: ByteOrder)
    ensures
        pcm_samples(pcm_bytes(samples, order), order) == samples,
        pcm_bytes(samples, order).len() == 2 * samples.len(),
{
    let bytes = pcm_bytes(samples, order);
    assert forall|i: int| 0 <= i < samples.len() implies pcm_samples(bytes, order)[i]
        == samples[i] by {
        assert((2 * i) / 2 == i && (2 * i) % 2 == 0);
        assert((2 * i + 1) / 2 == i && (2 * i + 1) % 2 == 1);
    }
    assert(pcm_samples(bytes, order) =~= samples);
}

/// Bytes that are read as samples are laid out again as the same bytes.
pub proof fn law_bytes_survive_samples(bytes: Seq<u8>, order: ByteOrder)
    requires
        bytes.len() % 2 == 0,
    ensures
        pcm_bytes(pcm_samples(bytes, order), order) == bytes,
{
    let samples = pcm_samples(bytes, order);
    assert forall|i: int| 0 <= i < bytes.len() implies pcm_bytes(samples, order)[i] == bytes[i] by {
        let k = i / 2;
        assert(i == 2 * k || i == 2 * k + 1);
    }
    assert(pcm_bytes(samples, order) =~= bytes);
}

/// The two bytes of a sample make it up: the low one, plus 256 times the high
/// one, less 65536 where the high one is 128 or more. The low one comes first in
/// little-endian order, the high one in big-endian order.
pub proof fn law_bytes_make_up_the_samples(samples: Seq<i16>, order: ByteOrder)
    ensures
        pcm_bytes(samples, order).len() == 2 * samples.len(),
        forall|i: int|
            0 <= i < samples.len() ==> {
                let bytes = pcm_bytes(samples, order);
                let low = bytes[if order is Little {
                    2 * i
                } else {
                    2 * i + 1
                }];
                let high = bytes[if order is Little {
                    2 * i + 1
                } else {
                    2 * i
                }];
                #[trigger] samples[i] == low + 256 * high - if high < 128 {
                    0int
                } else {
                    65536
                }
            },
{
    assert forall|i: int| 0 <= i < samples.len() implies {
        let bytes = pcm_bytes(samples, order);
        let low = bytes[if order is Little {
            2 * i
        } else {
            2 * i + 1
        }];
        let high = bytes[if order is Little {
            2 * i + 1
        } else {
            2 * i
        }];
        #[trigger] samples[i] == low + 256 * high - if high < 128 {
            0int
        } else {
            65536
        }
    } by {
        assert((2 * i) / 2 == i && (2 * i) % 2 == 0);
        assert((2 * i + 1) / 2 == i && (2 * i + 1) % 2 == 1);
    }
}

/// A sample is read from its own two bytes: the low one, plus 256 times the high
/// one, less 65536 where the high one is 128 or more.
pub proof fn law_samples_are_read_from_their_bytes(bytes: Seq<u8>, order: ByteOrder, i: int)
    requires
        bytes.len() % 2 == 0,
        0 <= i < bytes.len() / 2,
    ensures
        2 * pcm_samples(bytes, order).len() == bytes.len(),
        order is Little && bytes[2 * i + 1] < 128 ==> pcm_samples(bytes, order)[i] == bytes[2 * i]
            + 256 * bytes[2 * i + 1],
        order is Little && bytes[2 * i + 1] >= 128 ==> pcm_samples(bytes, order)[i] == bytes[2 * i]
            + 256 * bytes[2 * i + 1] - 65536,
        order is Big && bytes[2 * i] < 128 ==> pcm_samples(bytes, order)[i] == 256 * bytes[2 * i]
            + bytes[2 * i + 1],
        order is Big && bytes[2 * i] >= 128 ==> pcm_samples(bytes, order)[i] == 256 * bytes[2 * i]
            + bytes[2 * i + 1] - 65536,
{
}

}
