use vstd::arithmetic::power::{lemma_pow_increases, pow};
use vstd::prelude::*;
use vstd::utf8::{decode_utf8, valid_utf8};

use crate::error::Error;
use crate::text::{push_decimal, str_from_utf8, decimal_spec};

verus! {

/// Number of bill slots in the validator's bill table.
pub const BILL_TABLE_SIZE: usize = 24;

/// Size of one bill table entry on the wire.
pub const ENTRY_BYTES: usize = 5;

/// Size of a complete `GET_BILL_TABLE` response.
pub const BILL_TABLE_RESPONSE_LEN: usize = 120;

/// The face value that an entry encodes: the mantissa times ten to the
/// power of the exponent byte.
pub open spec fn denomination_spec(mantissa: u8, exponent: u8) -> int {
    mantissa * pow(10, exponent as nat)
}

/// Whether the face value of an entry, and the power of ten on the way to
/// it, fit in a `u32`.
pub open spec fn entry_fits(mantissa: u8, exponent: u8) -> bool {
    &&& pow(10, exponent as nat) <= u32::MAX
    &&& denomination_spec(mantissa, exponent) <= u32::MAX
}

/// Whether `entry` is what the 5 wire bytes `raw` encode:
/// `[mantissa][currency: 3 bytes][exponent]`.
pub open spec fn entry_from_bytes_spec(entry: BillEntry, raw: Seq<u8>) -> bool {
    &&& entry.denomination == denomination_spec(raw[0], raw[4])
    &&& entry.country_code@ == raw.subrange(1, 4)
}

/// Ten to the power `e`.
fn pow10(e: u8) -> (r: u32)
    requires
        pow(10, e as nat) <= u32::MAX,
    ensures
        r == pow(10, e as nat),
{
    let mut r: u32 = 1;
    let mut k: u8 = 0;
    assert(pow(10, 0) == 1) by { vstd::arithmetic::power::lemma_pow0(10); }
    while k < e
        invariant
            k <= e,
            r == pow(10, k as nat),
            pow(10, e as nat) <= u32::MAX,
        decreases e - k,
    {
        proof {
            lemma_pow_increases(10, (k + 1) as nat, e as nat);
            assert(pow(10, (k + 1) as nat) == 10 * pow(10, k as nat)) by {
                reveal(pow);
            }
        }
        r = r * 10;
        k = k + 1;
    }
    r
}

/// Whether the face value of an entry with these mantissa and exponent
/// bytes fits in a `u32`.
pub fn entry_fits_check(mantissa: u8, exponent: u8) -> (b: bool)
    ensures
        b == entry_fits(mantissa, exponent),
{
    proof {
        reveal_with_fuel(pow, 11);
        assert(pow(10, 9) == 1_000_000_000);
        assert(pow(10, 10) == 10_000_000_000);
    }
    if exponent > 9 {
        proof {
            lemma_pow_increases(10, 10, exponent as nat);
        }
        return false;
    }
    proof {
        lemma_pow_increases(10, exponent as nat, 9);
    }
    let scale = pow10(exponent);
    let m: u64 = mantissa as u64;
    let p: u64 = scale as u64;
    assert(m * p <= 255 * 1_000_000_000) by (nonlinear_arith)
        requires
            m <= 255,
            p <= 1_000_000_000,
    ;
    let value: u64 = m * p;
    value <= 0xFFFF_FFFF
}

/// One entry of the bill denomination table. An entry with denomination 0
/// is an unused slot.
#[derive(Debug, Clone, Copy, PartialEq, Eq)]
pub struct BillEntry {
    /// Face value: `mantissa × 10^exponent`.
    pub denomination: u32,
    /// ISO 4217 currency code as raw ASCII bytes (e.g. `b"TKM"`).
    pub country_code: [u8; 3],
}

impl BillEntry {
    /// Whether this slot is unused.
    pub fn is_empty(&self) -> (b: bool)
        ensures
            b == (self.denomination == 0),
    {
        self.denomination == 0
    }

    /// The country code as text, or `"???"` when it is not valid UTF-8.
    pub fn country_str(&self) -> (s: &str)
        ensures
            valid_utf8(self.country_code@) ==> s@ == decode_utf8(self.country_code@),
            !valid_utf8(self.country_code@) ==> s@ == "???"@,
    {
        match str_from_utf8(self.country_code.as_slice()) {
            Some(s) => s,
            None => "???",
        }
    }

    /// Decodes the 5 wire bytes of an entry. The face value must fit in a
    /// `u32`.
    pub fn from_bytes(raw: &[u8; 5]) -> (entry: BillEntry)
        requires
            entry_fits(raw@[0], raw@[4]),
        ensures
            entry_from_bytes_spec(entry, raw@),
    {
        let mantissa: u32 = raw[0] as u32;
        let scale = pow10(raw[4]);
        proof {
            vstd::arithmetic::mul::lemma_mul_is_commutative(raw@[0] as int, pow(10, raw@[4] as nat));
        }
        let denomination = mantissa * scale;
        let country_code: [u8; 3] = [raw[1], raw[2], raw[3]];
        let entry = BillEntry { denomination, country_code };
        assert(entry.country_code@ =~= raw@.subrange(1, 4));
        entry
    }

    /// The entry as text: `"(empty)"` for an unused slot, otherwise the
    /// face value in decimal, a space and the country code.
    pub fn to_string(&self) -> (s: String)
        ensures
            self.denomination == 0 ==> s@ == "(empty)"@,
            self.denomination != 0 ==> s@ == decimal_spec(self.denomination as nat) + seq![' ']
                + self.country_str_spec(),
    {
        if self.is_empty() {
            return String::from_str("(empty)");
        }
        let mut s = String::new();
        push_decimal(&mut s, self.denomination);
        s.push(' ');
        let country = self.country_str();
        s.append(country);
        s
    }

    /// The text that [`BillEntry::country_str`] gives.
    pub open spec fn country_str_spec(&self) -> Seq<char> {
        if valid_utf8(self.country_code@) { decode_utf8(self.country_code@) } else { "???"@ }
    }
}

/// The entry of slot `i` as the table bytes `data` encode it.
pub open spec fn slot_bytes(data: Seq<u8>, i: int) -> Seq<u8> {
    data.subrange(5 * i, 5 * i + 5)
}

/// Whether every slot of a complete table response has a face value that
/// fits in a `u32`.
pub open spec fn table_fits(data: Seq<u8>) -> bool {
    forall|i: int| 0 <= i < 24 ==> #[trigger] entry_fits(data[5 * i], data[5 * i + 4])
}

/// The pairs `(index, entry)` of a table, in slot order.
pub open spec fn indexed(entries: Seq<BillEntry>) -> Seq<(u8, BillEntry)> {
    Seq::new(entries.len(), |i: int| (i as u8, entries[i]))
}

/// Whether a slot is in use.
pub open spec fn is_active(pair: (u8, BillEntry)) -> bool {
    pair.1.denomination != 0
}

/// The slots of `pairs` that are in use, in order.
pub open spec fn active_pairs(pairs: Seq<(u8, BillEntry)>) -> Seq<(u8, BillEntry)>
    decreases pairs.len(),
{
    if pairs.len() == 0 {
        pairs
    } else if is_active(pairs.last()) {
        active_pairs(pairs.drop_last()).push(pairs.last())
    } else {
        active_pairs(pairs.drop_last())
    }
}

/// The complete bill table returned by `GET_BILL_TABLE`: 24 entries,
/// unused ones with denomination 0.
#[derive(Debug)]
pub struct BillTable {
    entries: Vec<BillEntry>,
}

impl View for BillTable {
    type V = Seq<BillEntry>;

    closed spec fn view(&self) -> Seq<BillEntry> {
        self.entries@
    }
}

impl Clone for BillTable {
    fn clone(&self) -> (t: BillTable)
        ensures
            t@ == self@,
    {
        proof {
            use_type_invariant(self);
        }
        let mut entries: Vec<BillEntry> = Vec::new();
        let mut i: usize = 0;
        while i < self.entries.len()
            invariant
                i <= self.entries@.len(),
                entries@ == self.entries@.take(i as int),
            decreases self.entries@.len() - i,
        {
            entries.push(self.entries[i]);
            i = i + 1;
            assert(entries@ =~= self.entries@.take(i as int));
        }
        assert(self.entries@.take(i as int) =~= self.entries@);
        BillTable { entries }
    }
}

impl BillTable {
    #[verifier::type_invariant]
    spec fn has_all_slots(self) -> bool {
        self.entries@.len() == 24
    }

    /// Whether `data` meets what [`BillTable::from_response_data`] requires:
    /// short responses are refused by it anyway; in a complete one every
    /// face value must fit in a `u32`.
    pub fn response_fits(data: &[u8]) -> (b: bool)
        ensures
            b == (data@.len() >= 120 ==> table_fits(data@)),
    {
        if data.len() < BILL_TABLE_RESPONSE_LEN {
            return true;
        }
        let mut i: usize = 0;
        while i < BILL_TABLE_SIZE
            invariant
                i <= 24,
                data@.len() >= 120,
                forall|j: int| 0 <= j < i ==> #[trigger] entry_fits(data@[5 * j], data@[5 * j + 4]),
            decreases 24 - i,
        {
            if !entry_fits_check(data[i * ENTRY_BYTES], data[i * ENTRY_BYTES + 4]) {
                assert(!entry_fits(data@[5 * i], data@[5 * i + 4]));
                return false;
            }
            i = i + 1;
        }
        true
    }

    /// Parses the 120-byte `GET_BILL_TABLE` response payload. Longer
    /// payloads are accepted and their extra bytes ignored. Every entry's
    /// face value must fit in a `u32`.
    pub fn from_response_data(data: &[u8]) -> (r: Result<BillTable, Error>)
        requires
            data@.len() >= 120 ==> table_fits(data@),
        ensures
            data@.len() < 120 <==> r is Err,
            r matches Err(e) ==> e == Error::InvalidFrame("GET_BILL_TABLE response too short"),
            r matches Ok(t) ==> t@.len() == 24 && forall|i: int|
                0 <= i < 24 ==> #[trigger] entry_from_bytes_spec(t@[i], slot_bytes(data@, i)),
    {
        if data.len() < BILL_TABLE_RESPONSE_LEN {
            return Err(Error::InvalidFrame("GET_BILL_TABLE response too short"));
        }
        let mut entries: Vec<BillEntry> = Vec::new();
        let mut i: usize = 0;
        while i < BILL_TABLE_SIZE
            invariant
                i <= 24,
                data@.len() >= 120,
                table_fits(data@),
                entries@.len() == i,
                forall|j: int|
                    0 <= j < i ==> #[trigger] entry_from_bytes_spec(entries@[j], slot_bytes(data@, j)),
            decreases 24 - i,
        {
            let offset = i * ENTRY_BYTES;
            let raw: [u8; 5] = [
                data[offset],
                data[offset + 1],
                data[offset + 2],
                data[offset + 3],
                data[offset + 4],
            ];
            assert(entry_fits(data@[5 * i], data@[5 * i + 4]));
            let entry = BillEntry::from_bytes(&raw);
            assert(raw@ =~= slot_bytes(data@, i as int));
            entries.push(entry);
            i = i + 1;
        }
        Ok(BillTable { entries })
    }

    /// The entry of slot `index`, or `None` when `index >= 24`.
    pub fn get(&self, index: u8) -> (r: Option<&BillEntry>)
        ensures
            self@.len() == 24,
            r is Some <==> index < 24,
            r matches Some(e) ==> *e == self@[index as int],
    {
        proof {
            use_type_invariant(self);
        }
        if (index as usize) < self.entries.len() {
            Some(&self.entries[index as usize])
        } else {
            None
        }
    }

    /// All 24 slots with their indices, empty ones included.
    pub fn iter(&self) -> (r: Vec<(u8, BillEntry)>)
        ensures
            self@.len() == 24,
            r@.len() == 24,
            r@ == indexed(self@),
    {
        proof {
            use_type_invariant(self);
        }
        let mut r: Vec<(u8, BillEntry)> = Vec::new();
        let mut i: usize = 0;
        while i < self.entries.len()
            invariant
                i <= self.entries@.len(),
                self.entries@.len() == 24,
                r@ == indexed(self@).take(i as int),
            decreases self.entries@.len() - i,
        {
            r.push((i as u8, self.entries[i]));
            i = i + 1;
            assert(r@ =~= indexed(self@).take(i as int));
        }
        assert(indexed(self@).take(i as int) =~= indexed(self@));
        r
    }

    /// The slots in use with their indices, in slot order.
    pub fn active_entries(&self) -> (r: Vec<(u8, BillEntry)>)
        ensures
            self@.len() == 24,
            r@ == active_pairs(indexed(self@)),
    {
        let all = self.iter();
        let mut r: Vec<(u8, BillEntry)> = Vec::new();
        let mut i: usize = 0;
        while i < all.len()
            invariant
                i <= all@.len(),
                r@ == active_pairs(all@.take(i as int)),
            decreases all@.len() - i,
        {
            assert(all@.take(i + 1).drop_last() =~= all@.take(i as int));
            let pair = all[i];
            if !pair.1.is_empty() {
                r.push(pair);
            }
            i = i + 1;
        }
        assert(all@.take(i as int) =~= all@);
        r
    }
}

/// The slots in use are exactly the pairs with a non-zero face value, each
/// taken from the table, none left out, and never more than the table has.
pub proof fn lemma_active_pairs(pairs: Seq<(u8, BillEntry)>)
    ensures
        active_pairs(pairs).len() <= pairs.len(),
        forall|k: int| 0 <= k < active_pairs(pairs).len() ==> is_active(#[trigger] active_pairs(pairs)[k])
            && pairs.contains(active_pairs(pairs)[k]),
        forall|k: int| 0 <= k < pairs.len() && is_active(#[trigger] pairs[k]) ==> active_pairs(pairs).contains(pairs[k]),
    decreases pairs.len(),
{
    if pairs.len() > 0 {
        let rest = pairs.drop_last();
        lemma_active_pairs(rest);
        let act = active_pairs(pairs);
        assert forall|k: int| 0 <= k < act.len() implies is_active(#[trigger] act[k]) && pairs.contains(act[k]) by {
            if k < active_pairs(rest).len() {
                assert(act[k] == active_pairs(rest)[k]);
                let j = choose|j: int| 0 <= j < rest.len() && rest[j] == act[k];
                assert(pairs[j] == act[k]);
            } else {
                assert(act[k] == pairs.last());
                assert(pairs[pairs.len() - 1] == act[k]);
            }
        }
        assert forall|k: int| 0 <= k < pairs.len() && is_active(#[trigger] pairs[k]) implies act.contains(pairs[k]) by {
            if k < pairs.len() - 1 {
                assert(rest[k] == pairs[k]);
                let j = choose|j: int| 0 <= j < active_pairs(rest).len() && active_pairs(rest)[j] == rest[k];
                assert(act[j] == pairs[k]);
            } else {
                assert(act[act.len() - 1] == pairs[k]);
            }
        }
    }
}

/// An entry's face value is its mantissa at exponent 0, and each step of
/// the exponent multiplies it by ten.
pub proof fn lemma_denomination_scale(mantissa: u8, exponent: u8)
    ensures
        denomination_spec(mantissa, 0) == mantissa,
        exponent < 255 ==> denomination_spec(mantissa, (exponent + 1) as u8) == 10
            * denomination_spec(mantissa, exponent),
{
    reveal_with_fuel(pow, 1);
    assert(pow(10, 0) == 1) by { reveal(pow); }
    if exponent < 255 {
        assert(pow(10, (exponent + 1) as nat) == 10 * pow(10, exponent as nat)) by { reveal(pow); }
        vstd::arithmetic::mul::lemma_mul_is_associative(mantissa as int, 10, pow(10, exponent as nat));
        vstd::arithmetic::mul::lemma_mul_is_commutative(mantissa as int, 10);
        vstd::arithmetic::mul::lemma_mul_is_associative(10, mantissa as int, pow(10, exponent as nat));
    }
}

/// The 24 slots laid side by side, in order.
pub open spec fn slots_concat(data: Seq<u8>, n: nat) -> Seq<u8>
    decreases n,
{
    if n == 0 { Seq::empty() } else { slots_concat(data, (n - 1) as nat) + slot_bytes(data, n - 1) }
}

/// The slots of a table response are consecutive 5-byte pieces that tile
/// its first 120 bytes, slot 0 first.
pub proof fn lemma_slots_tile(data: Seq<u8>, n: nat)
    requires
        n <= 24,
        data.len() >= 120,
    ensures
        slots_concat(data, n) == data.take(5 * n as int),
    decreases n,
{
    if n > 0 {
        lemma_slots_tile(data, (n - 1) as nat);
        assert(data.take(5 * (n - 1)) + data.subrange(5 * (n - 1), 5 * (n - 1) + 5) =~= data.take(5 * n as int));
    } else {
        assert(data.take(0) =~= Seq::<u8>::empty());
    }
}

/// Pair `k` of a table's listing is slot `k` with its own index.
pub proof fn lemma_indexed(entries: Seq<BillEntry>, k: int)
    requires
        entries.len() <= 256,
        0 <= k < entries.len(),
    ensures
        indexed(entries).len() == entries.len(),
        indexed(entries)[k].0 as int == k,
        indexed(entries)[k].1 == entries[k],
{
}

} // verus!
