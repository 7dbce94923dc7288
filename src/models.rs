//! The data model: byte units, formatted values and reports.
use vstd::prelude::*;
use vstd::string::*;

verus! {

/// The unit in which a byte count is shown, each a power of 1024.
#[derive(Debug, Clone, Copy, PartialEq, Eq, Structural)]
pub enum ByteUnit {
    Byte,
    Kilobyte,
    Megabyte,
    Gigabyte,
    Terabyte,
    Petabyte,
}

/// The canonical symbol of a unit.
pub open spec fn unit_symbol(u: ByteUnit) -> Seq<char> {
    match u {
        ByteUnit::Byte => seq!['B'],
        ByteUnit::Kilobyte => seq!['K', 'B'],
        ByteUnit::Megabyte => seq!['M', 'B'],
        ByteUnit::Gigabyte => seq!['G', 'B'],
        ByteUnit::Terabyte => seq!['T', 'B'],
        ByteUnit::Petabyte => seq!['P', 'B'],
    }
}

/// How many bytes one unit holds.
pub open spec fn unit_size(u: ByteUnit) -> nat {
    match u {
        ByteUnit::Byte => 1,
        ByteUnit::Kilobyte => 1024,
        ByteUnit::Megabyte => 1024 * 1024,
        ByteUnit::Gigabyte => 1024 * 1024 * 1024,
        ByteUnit::Terabyte => 1024 * 1024 * 1024 * 1024,
        ByteUnit::Petabyte => 1024 * 1024 * 1024 * 1024 * 1024,
    }
}

/// The unit a setting names: a multiple's symbol names it, anything else
/// falls back to plain bytes.
pub open spec fn parse_unit(s: Seq<char>) -> ByteUnit {
    if s == unit_symbol(ByteUnit::Kilobyte) {
        ByteUnit::Kilobyte
    } else if s == unit_symbol(ByteUnit::Megabyte) {
        ByteUnit::Megabyte
    } else if s == unit_symbol(ByteUnit::Gigabyte) {
        ByteUnit::Gigabyte
    } else if s == unit_symbol(ByteUnit::Terabyte) {
        ByteUnit::Terabyte
    } else if s == unit_symbol(ByteUnit::Petabyte) {
        ByteUnit::Petabyte
    } else {
        ByteUnit::Byte
    }
}

impl ByteUnit {
    /// Reads a unit setting; an unknown value gives `Byte`.
    pub fn parse(unit: &str) -> (r: ByteUnit)
        ensures
            r == parse_unit(unit@),
    {
        let n = unit.unicode_len();
        if n != 2 {
            return ByteUnit::Byte;
        }
        let first = unit.get_char(0);
        let second = unit.get_char(1);
        if second != 'B' {
            return ByteUnit::Byte;
        }
        proof {
            assert(unit@ =~= seq![first, second]);
        }
        if first == 'K' {
            ByteUnit::Kilobyte
        } else if first == 'M' {
            ByteUnit::Megabyte
        } else if first == 'G' {
            ByteUnit::Gigabyte
        } else if first == 'T' {
            ByteUnit::Terabyte
        } else if first == 'P' {
            ByteUnit::Petabyte
        } else {
            ByteUnit::Byte
        }
    }

    /// The number of bytes in one unit.
    pub fn to_bytes(&self) -> (r: u64)
        ensures
            r as nat == unit_size(*self),
    {
        match self {
            ByteUnit::Byte => 1,
            ByteUnit::Kilobyte => 1024,
            ByteUnit::Megabyte => 1024 * 1024,
            ByteUnit::Gigabyte => 1024 * 1024 * 1024,
            ByteUnit::Terabyte => 1024 * 1024 * 1024 * 1024,
            ByteUnit::Petabyte => 1024 * 1024 * 1024 * 1024 * 1024,
        }
    }

    /// The unit's symbol as text.
    pub fn to_string(&self) -> (r: String)
        ensures
            r@ == unit_symbol(*self),
    {
        match self {
            ByteUnit::Byte => {
                proof { reveal_strlit("B"); }
                String::from_str("B")
            },
            ByteUnit::Kilobyte => {
                proof { reveal_strlit("KB"); }
                String::from_str("KB")
            },
            ByteUnit::Megabyte => {
                proof { reveal_strlit("MB"); }
                String::from_str("MB")
            },
            ByteUnit::Gigabyte => {
                proof { reveal_strlit("GB"); }
                String::from_str("GB")
            },
            ByteUnit::Terabyte => {
                proof { reveal_strlit("TB"); }
                String::from_str("TB")
            },
            ByteUnit::Petabyte => {
                proof { reveal_strlit("PB"); }
                String::from_str("PB")
            },
        }
    }
}

} // verus!

verus! {

/// Ten to the power `p`.
pub open spec fn pow10(p: nat) -> nat
    decreases p,
{
    if p == 0 {
        1
    } else {
        10 * pow10((p - 1) as nat)
    }
}

/// The character of a decimal digit.
pub open spec fn digit_char(d: nat) -> char {
    if d == 0 {
        '0'
    } else if d == 1 {
        '1'
    } else if d == 2 {
        '2'
    } else if d == 3 {
        '3'
    } else if d == 4 {
        '4'
    } else if d == 5 {
        '5'
    } else if d == 6 {
        '6'
    } else if d == 7 {
        '7'
    } else if d == 8 {
        '8'
    } else {
        '9'
    }
}

/// The decimal digits of `n`, without leading zeros (`0` is one digit).
pub open spec fn decimal(n: nat) -> Seq<char>
    decreases n,
{
    if n < 10 {
        seq![digit_char(n)]
    } else {
        decimal(n / 10).push(digit_char(n % 10))
    }
}

/// The last `w` decimal digits of `n`, zeros in front where `n` is shorter.
pub open spec fn last_digits(n: nat, w: nat) -> Seq<char>
    decreases w,
{
    if w == 0 {
        Seq::empty()
    } else {
        last_digits(n / 10, (w - 1) as nat).push(digit_char(n % 10))
    }
}

/// The text of the number `scaled / 10^p` with exactly `p` fractional digits.
pub open spec fn fixed_point(scaled: nat, p: nat) -> Seq<char> {
    if p == 0 {
        decimal(scaled)
    } else {
        decimal(scaled / pow10(p)) + seq!['.'] + last_digits(scaled, p)
    }
}

/// A measured amount shown in a unit: `scaled / 10^precision` units.
#[derive(Debug)]
pub struct ByteInfo {
    pub scaled: u128,
    pub unit: String,
    pub precision: usize,
}

impl View for ByteInfo {
    type V = (u128, Seq<char>, usize);

    open spec fn view(&self) -> (u128, Seq<char>, usize) {
        (self.scaled, self.unit@, self.precision)
    }
}

impl Clone for ByteInfo {
    fn clone(&self) -> (r: ByteInfo)
        ensures
            r@ == self@,
    {
        ByteInfo { scaled: self.scaled, unit: self.unit.clone(), precision: self.precision }
    }
}

impl ByteInfo {
    /// The value as a decimal number with `precision` fractional digits.
    pub open spec fn rendered(&self) -> Seq<char> {
        fixed_point(self.scaled as nat, self.precision as nat)
    }

    /// The value as text, for instance `2.00`.
    pub fn value_string(&self) -> (r: String)
        ensures
            r@ == self.rendered(),
    {
        let mut out = String::new();
        push_fixed_point(&mut out, self.scaled, self.precision);
        out
    }
}

fn digit_str(d: u128) -> (r: &'static str)
    requires
        d < 10,
    ensures
        r@ == seq![digit_char(d as nat)],
{
    if d == 0 {
        proof { reveal_strlit("0"); }
        "0"
    } else if d == 1 {
        proof { reveal_strlit("1"); }
        "1"
    } else if d == 2 {
        proof { reveal_strlit("2"); }
        "2"
    } else if d == 3 {
        proof { reveal_strlit("3"); }
        "3"
    } else if d == 4 {
        proof { reveal_strlit("4"); }
        "4"
    } else if d == 5 {
        proof { reveal_strlit("5"); }
        "5"
    } else if d == 6 {
        proof { reveal_strlit("6"); }
        "6"
    } else if d == 7 {
        proof { reveal_strlit("7"); }
        "7"
    } else if d == 8 {
        proof { reveal_strlit("8"); }
        "8"
    } else {
        proof { reveal_strlit("9"); }
        "9"
    }
}

/// Appends the decimal digits of `n`.
pub fn push_decimal(out: &mut String, n: u128)
    ensures
        final(out)@ == old(out)@ + decimal(n as nat),
    decreases n,
{
    if n >= 10 {
        push_decimal(out, n / 10);
    }
    out.append(digit_str(n % 10));
    assert(final(out)@ =~= old(out)@ + decimal(n as nat));
}

/// Appends the last `w` decimal digits of `n`, zero-padded.
pub fn push_last_digits(out: &mut String, n: u128, w: usize)
    ensures
        final(out)@ == old(out)@ + last_digits(n as nat, w as nat),
    decreases w,
{
    if w > 0 {
        push_last_digits(out, n / 10, w - 1);
        out.append(digit_str(n % 10));
    }
    assert(final(out)@ =~= old(out)@ + last_digits(n as nat, w as nat));
}

/// `10^p` as a machine integer.
pub fn pow10_exec(p: usize) -> (r: u128)
    requires
        p <= 38,
    ensures
        r as nat == pow10(p as nat),
        r > 0,
{
    let mut r: u128 = 1;
    let mut i: usize = 0;
    proof {
        lemma_pow10_mono(0, 38);
        lemma_pow10_values();
    }
    while i < p
        invariant
            i <= p <= 38,
            r as nat == pow10(i as nat),
            r > 0,
            pow10(i as nat) <= pow10(38),
        decreases p - i,
    {
        proof {
            lemma_pow10_mono((i + 1) as nat, 38);
            lemma_pow10_values();
        }
        r = r * 10;
        i = i + 1;
    }
    r
}

/// Powers of ten grow with the exponent.
pub proof fn lemma_pow10_mono(a: nat, b: nat)
    requires
        a <= b,
    ensures
        pow10(a) <= pow10(b),
    decreases b,
{
    if a < b {
        lemma_pow10_mono(a, (b - 1) as nat);
    }
}

/// Appends `scaled / 10^p` with exactly `p` fractional digits.
pub fn push_fixed_point(out: &mut String, scaled: u128, p: usize)
    ensures
        final(out)@ == old(out)@ + fixed_point(scaled as nat, p as nat),
{
    if p == 0 {
        push_decimal(out, scaled);
    } else if p > 38 {
        push_decimal(out, 0);
        proof { reveal_strlit("."); }
        out.append(".");
        push_last_digits(out, scaled, p);
        proof {
            lemma_pow10_big(scaled as nat, p as nat);
            assert(final(out)@ =~= old(out)@ + fixed_point(scaled as nat, p as nat));
        }
    } else {
        let whole = scaled / pow10_exec(p);
        push_decimal(out, whole);
        proof { reveal_strlit("."); }
        out.append(".");
        push_last_digits(out, scaled, p);
        assert(final(out)@ =~= old(out)@ + fixed_point(scaled as nat, p as nat));
    }
}

/// A power of ten beyond 38 exceeds every `u128`.
proof fn lemma_pow10_big(n: nat, p: nat)
    requires
        p > 38,
        n <= u128::MAX,
    ensures
        n / pow10(p) == 0,
{
    lemma_pow10_mono(39, p);
    lemma_pow10_values();
    let d = pow10(p);
    assert(n / d == 0) by (nonlinear_arith)
        requires
            n < d,
    ;
}

/// The two powers of ten around the range of `u128`.
proof fn lemma_pow10_values()
    ensures
        pow10(38) == 100000000000000000000000000000000000000nat,
        pow10(39) == 1000000000000000000000000000000000000000nat,
        pow10(38) <= u128::MAX,
{
    reveal_with_fuel(pow10, 40);
}

} // verus!

verus! {

/// One snapshot of every sampled metric.
#[derive(Debug)]
pub struct SystemReport {
    pub ram_total: ByteInfo,
    pub ram_usage: ByteInfo,
    pub disk_total: ByteInfo,
    pub disk_usage: ByteInfo,
    pub cpu_usage: ByteInfo,
    pub network_received: ByteInfo,
    pub network_transmitted: ByteInfo,
}

impl View for SystemReport {
    type V = Seq<(u128, Seq<char>, usize)>;

    /// The metrics in payload order.
    open spec fn view(&self) -> Seq<(u128, Seq<char>, usize)> {
        seq![
            self.ram_total@,
            self.ram_usage@,
            self.disk_total@,
            self.disk_usage@,
            self.cpu_usage@,
            self.network_received@,
            self.network_transmitted@,
        ]
    }
}

impl Clone for SystemReport {
    fn clone(&self) -> (r: SystemReport)
        ensures
            r@ == self@,
    {
        SystemReport {
            ram_total: self.ram_total.clone(),
            ram_usage: self.ram_usage.clone(),
            disk_total: self.disk_total.clone(),
            disk_usage: self.disk_usage.clone(),
            cpu_usage: self.cpu_usage.clone(),
            network_received: self.network_received.clone(),
            network_transmitted: self.network_transmitted.clone(),
        }
    }
}

impl SystemReport {
    /// The state payload: a JSON object with one key per metric, each value
    /// written with the metric's own number of fractional digits.
    pub open spec fn json(&self) -> Seq<char> {
        "{\n\"ram_total\": "@ + self.ram_total.rendered()
            + ",\n\"ram_usage\": "@ + self.ram_usage.rendered()
            + ",\n\"disk_total\": "@ + self.disk_total.rendered()
            + ",\n\"disk_usage\": "@ + self.disk_usage.rendered()
            + ",\n\"cpu_usage\": "@ + self.cpu_usage.rendered()
            + ",\n\"network_received\": "@ + self.network_received.rendered()
            + ",\n\"network_transmitted\": "@ + self.network_transmitted.rendered()
            + "\n}"@
    }

    /// Renders the state payload.
    pub fn to_json(&self) -> (r: String)
        ensures
            r@ == self.json(),
    {
        let mut out = String::from_str("{\n\"ram_total\": ");
        push_fixed_point(&mut out, self.ram_total.scaled, self.ram_total.precision);
        out.append(",\n\"ram_usage\": ");
        push_fixed_point(&mut out, self.ram_usage.scaled, self.ram_usage.precision);
        out.append(",\n\"disk_total\": ");
        push_fixed_point(&mut out, self.disk_total.scaled, self.disk_total.precision);
        out.append(",\n\"disk_usage\": ");
        push_fixed_point(&mut out, self.disk_usage.scaled, self.disk_usage.precision);
        out.append(",\n\"cpu_usage\": ");
        push_fixed_point(&mut out, self.cpu_usage.scaled, self.cpu_usage.precision);
        out.append(",\n\"network_received\": ");
        push_fixed_point(&mut out, self.network_received.scaled, self.network_received.precision);
        out.append(",\n\"network_transmitted\": ");
        push_fixed_point(
            &mut out,
            self.network_transmitted.scaled,
            self.network_transmitted.precision,
        );
        out.append("\n}");
        out
    }
}

} // verus!
