//! A small table of invented records, for trying the program out.
use vstd::prelude::*;


verus! {

/// The headers of the table.
pub const SAMPLE_HEADERS: [&'static str; 14] = [
    "Date",
    "Recipient",
    "EDRPOU",
    "Sender",
    "Product code",
    "Description",
    "Trademark",
    "Origin country",
    "Dispatch country",
    "Trade country",
    "Net kg",
    "Gross kg",
    "Value USD",
    "Quantity",
];

pub const SAMPLE_RECIPIENTS: [&'static str; 5] = [
    "TechnoImport LLC",
    "Global Foods Ukraine",
    "BuildMaster Group",
    "MediPharm Distribution",
    "AutoParts Direct",
];

/// The codes of the recipients, in their order.
pub const SAMPLE_CODES: [&'static str; 5] = [
    "31005420",
    "40123765",
    "38290155",
    "42551908",
    "35120744",
];

pub const SAMPLE_SENDERS: [&'static str; 5] = [
    "Shenzhen Electronics Co",
    "Bavaria Handels GmbH",
    "Istanbul Textile AS",
    "Krakow Logistics Sp",
    "Milano Foods SRL",
];

pub const SAMPLE_PRODUCTS: [&'static str; 5] = [
    "8471300000",
    "0901210000",
    "6403990000",
    "3004900000",
    "8708299000",
];

/// What the products are, in their order.
pub const SAMPLE_DESCRIPTIONS: [&'static str; 5] = [
    "Portable computers",
    "Roasted coffee",
    "Leather footwear",
    "Medicaments retail",
    "Vehicle body parts",
];

/// The trademarks of the products, in their order.
pub const SAMPLE_TRADEMARKS: [&'static str; 5] = ["Lenovo", "Lavazza", "Ecco", "Bayer", "Bosch"];

pub const SAMPLE_ORIGINS: [&'static str; 5] = ["CN", "DE", "TR", "PL", "IT"];

/// How many records the table has unless another number is asked for.
pub const SAMPLE_ROWS: usize = 320;

/// Where the drawing of records begins.
pub const SAMPLE_SEED: u64 = 0x9e37_79b9_7f4a_7c15;

/// The number that is drawn after another.
pub open spec fn drawn(seed: u64) -> u64 {
    let a = seed ^ (seed << 13u64);
    let b = a ^ (a >> 7u64);
    b ^ (b << 17u64)
}

/// The number that is drawn as the `n`th after another.
pub open spec fn drawn_at(seed: u64, n: nat) -> u64
    decreases n,
{
    if n == 0 {
        seed
    } else {
        drawn(drawn_at(seed, (n - 1) as nat))
    }
}

/// Draws the next number.
pub fn draw(seed: u64) -> (r: u64)
    ensures
        r == drawn(seed),
{
    let a: u64 = seed ^ (seed << 13u64);
    let b: u64 = a ^ (a >> 7u64);
    b ^ (b << 17u64)
}

/// A record of the table: places in the lists above, and its figures.
#[derive(Clone, Copy, Debug, PartialEq, Eq, Structural)]
pub struct SampleRow {
    pub recipient: usize,
    pub sender: usize,
    pub product: usize,
    pub origin: usize,
    pub month: u32,
    pub day: u32,
    /// The net weight above fifty kilograms, in tenths of one.
    pub net_tenths: u64,
    /// The value of a kilogram.
    pub price: u64,
    pub quantity: u64,
    /// Where the drawing of the next record begins.
    pub seed: u64,
}

/// Draws a record.
pub fn sample_row(seed: u64) -> (r: SampleRow)
    ensures
        r.recipient == drawn_at(seed, 1) % 5,
        r.sender == drawn_at(seed, 2) % 5,
        r.product == drawn_at(seed, 3) % 5,
        r.origin == drawn_at(seed, 4) % 5,
        r.month == 1 + drawn_at(seed, 5) % 12,
        r.day == 1 + drawn_at(seed, 6) % 27,
        r.net_tenths == drawn_at(seed, 7) % 5000,
        r.price == 3 + drawn_at(seed, 8) % 40,
        r.quantity == 1 + drawn_at(seed, 9) % 500,
        r.seed == drawn_at(seed, 9),
{
    proof {
        reveal_with_fuel(drawn_at, 10);
    }
    let s1: u64 = draw(seed);
    let s2: u64 = draw(s1);
    let s3: u64 = draw(s2);
    let s4: u64 = draw(s3);
    let s5: u64 = draw(s4);
    let s6: u64 = draw(s5);
    let s7: u64 = draw(s6);
    let s8: u64 = draw(s7);
    let s9: u64 = draw(s8);
    SampleRow {
        recipient: (s1 % 5) as usize,
        sender: (s2 % 5) as usize,
        product: (s3 % 5) as usize,
        origin: (s4 % 5) as usize,
        month: 1 + (s5 % 12) as u32,
        day: 1 + (s6 % 27) as u32,
        net_tenths: s7 % 5000,
        price: 3 + s8 % 40,
        quantity: 1 + s9 % 500,
        seed: s9,
    }
}

} // verus!
