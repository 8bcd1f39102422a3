use vstd::prelude::*;

verus! {

/// The topic on which temperature readings travel.
pub const TEMPERATURE_TOPIC: &'static str = "monitoring/temperature";

/// The topic on which humidity readings travel.
pub const HUMIDITY_TOPIC: &'static str = "monitoring/humidity";

/// One sampled sensor value with its identity and time stamp.
///
/// The value is an IEEE-754 single-precision number, held here by its bit
/// pattern so that every value (NaN and the infinities included) is kept
/// exactly.
pub struct Reading {
    pub device_id: String,
    pub value_bits: u32,
    pub timestamp: u64,
}

/// What a reading denotes: its identifier as characters, the float's bits
/// and the time stamp in milliseconds since the epoch.
pub struct ReadingModel {
    pub device_id: Seq<char>,
    pub value_bits: u32,
    pub timestamp: u64,
}

impl View for Reading {
    type V = ReadingModel;

    open spec fn view(&self) -> ReadingModel {
        ReadingModel { device_id: self.device_id@, value_bits: self.value_bits, timestamp: self.timestamp }
    }
}

/// The reading that an empty payload decodes to: every field at its default.
pub open spec fn default_model() -> ReadingModel {
    ReadingModel { device_id: Seq::empty(), value_bits: 0, timestamp: 0 }
}

impl Reading {
    pub fn new(device_id: String, value_bits: u32, timestamp: u64) -> (r: Reading)
        ensures
            r.device_id@ == device_id@,
            r.value_bits == value_bits,
            r.timestamp == timestamp,
    {
        Reading { device_id, value_bits, timestamp }
    }

    /// A reading with every field at its default.
    pub fn empty() -> (r: Reading)
        ensures
            r@ == default_model(),
    {
        Reading { device_id: String::new(), value_bits: 0, timestamp: 0 }
    }
}

/// The two channels of this system, each bound to one kind of reading.
#[derive(Debug, Clone, Copy, PartialEq, Eq, Structural)]
pub enum Topic {
    Temperature,
    Humidity,
}

/// The name a topic is published under.
pub open spec fn topic_name(t: Topic) -> Seq<char> {
    match t {
        Topic::Temperature => TEMPERATURE_TOPIC@,
        Topic::Humidity => HUMIDITY_TOPIC@,
    }
}

/// The topic whose name is `s`, if any.
pub open spec fn topic_named(s: Seq<char>) -> Option<Topic> {
    if s == TEMPERATURE_TOPIC@ {
        Some(Topic::Temperature)
    } else if s == HUMIDITY_TOPIC@ {
        Some(Topic::Humidity)
    } else {
        None
    }
}

impl Topic {
    pub fn name(&self) -> (r: &'static str)
        ensures
            r@ == topic_name(*self),
    {
        match self {
            Topic::Temperature => TEMPERATURE_TOPIC,
            Topic::Humidity => HUMIDITY_TOPIC,
        }
    }

    /// The topic named `s`; `None` for a name outside the two channels.
    pub fn from_name(s: &str) -> (r: Option<Topic>)
        ensures
            r == topic_named(s@),
    {
        let given = String::from_str(s);
        let temperature = String::from_str(TEMPERATURE_TOPIC);
        let humidity = String::from_str(HUMIDITY_TOPIC);
        if given == temperature {
            Some(Topic::Temperature)
        } else if given == humidity {
            Some(Topic::Humidity)
        } else {
            None
        }
    }
}

/// A reading taken on the temperature channel.
pub struct Temperature {
    pub reading: Reading,
}

/// A reading taken on the humidity channel.
pub struct Humidity {
    pub reading: Reading,
}

// ---------------------------------------------------------------------
// Whole numbers as single-precision floats
// ---------------------------------------------------------------------
pub open spec fn pow2(k: nat) -> nat
    decreases k,
{
    if k == 0 {
        1
    } else {
        2 * pow2((k - 1) as nat)
    }
}

/// `bits` is the IEEE-754 single-precision pattern of the whole number `n`:
/// sign 0, biased exponent `e`, and a significand `1.m` with
/// `(2^23 + m) * 2^(e - 150) == n`.
pub open spec fn f32_bits_of_whole(bits: u32, n: nat) -> bool {
    let e = bits / 0x80_0000;
    let m = bits % 0x80_0000;
    127 <= e <= 150 && 0x80_0000 + m == n * pow2((150 - e) as nat)
}

proof fn lemma_pow2_reaches(k: nat)
    requires
        k >= 23,
    ensures
        pow2(k) >= 0x80_0000,
    decreases k,
{
    if k > 23 {
        lemma_pow2_reaches((k - 1) as nat);
    } else {
        reveal_with_fuel(pow2, 24);
    }
}

/// The single-precision bits of a whole number small enough to be exact.
pub fn whole_to_f32_bits(n: u32) -> (bits: u32)
    requires
        1 <= n < 0x100_0000,
    ensures
        f32_bits_of_whole(bits, n as nat),
{
    let mut m: u32 = n;
    let mut e: u32 = 150;
    assert(pow2(0) == 1);
    assert(n as nat * pow2(0) == n as nat);
    while m < 0x80_0000
        invariant
            1 <= m < 0x100_0000,
            127 <= e <= 150,
            m as nat == n as nat * pow2((150 - e) as nat),
            m as nat >= pow2((150 - e) as nat),
        decreases e,
    {
        if e == 127 {
            proof {
                lemma_pow2_reaches(23);
            }
        }
        proof {
            let k = (150 - e) as nat;
            assert(pow2(k + 1) == 2 * pow2(k));
            assert(n as nat * (2 * pow2(k)) == 2 * (n as nat * pow2(k))) by (nonlinear_arith);
        }
        m = m * 2;
        e = e - 1;
    }
    let bits = e * 0x80_0000 + (m - 0x80_0000);
    assert(bits / 0x80_0000 == e && bits % 0x80_0000 == m - 0x80_0000) by (nonlinear_arith)
        requires
            bits == e * 0x80_0000 + (m - 0x80_0000),
            0x80_0000 <= m < 0x100_0000,
    ;
    bits
}

} // verus!
