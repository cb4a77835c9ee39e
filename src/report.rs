use vstd::prelude::*;

verus! {

/// The report ID of the brightness feature report.
pub const REPORT_ID: u8 = 1;

/// Length of the brightness feature report, report ID included.
pub const REPORT_LEN: usize = 7;

/// Offset of the brightness field in the report.
pub const BRIGHTNESS_OFFSET: usize = 1;

/// `256` to the power `w`.
pub open spec fn pow256(w: nat) -> nat
    decreases w,
{
    if w == 0 {
        1
    } else {
        256 * pow256((w - 1) as nat)
    }
}

/// The number that the bytes of `s` spell, least significant byte first.
pub open spec fn le_value(s: Seq<u8>) -> nat
    decreases s.len(),
{
    if s.len() == 0 {
        0
    } else {
        s[0] as nat + 256 * le_value(s.drop_first())
    }
}

/// The `w` low bytes of `n`, least significant first.
pub open spec fn le_bytes(n: nat, w: nat) -> Seq<u8>
    decreases w,
{
    if w == 0 {
        Seq::empty()
    } else {
        seq![(n % 256) as u8] + le_bytes(n / 256, (w - 1) as nat)
    }
}

/// The two layouts in which displays of this kind carry the brightness.
#[derive(Debug, Clone, Copy, PartialEq, Eq, Structural)]
pub enum ReportLayout {
    /// Report ID, brightness as 16 bits little-endian, four reserved bytes.
    Narrow,
    /// Report ID, brightness as 32 bits little-endian, two reserved bytes.
    Wide,
}

impl ReportLayout {
    /// Number of bytes of the brightness field.
    pub open spec fn width(self) -> nat {
        match self {
            ReportLayout::Narrow => 2,
            ReportLayout::Wide => 4,
        }
    }

    /// Number of distinct values the brightness field can hold.
    pub open spec fn capacity(self) -> nat {
        match self {
            ReportLayout::Narrow => 0x1_0000,
            ReportLayout::Wide => 0x1_0000_0000,
        }
    }

    /// Whether `nits` can be written in the brightness field.
    pub open spec fn fits(self, nits: int) -> bool {
        0 <= nits < self.capacity()
    }

    /// Number of bytes of the brightness field.
    pub fn brightness_width(&self) -> (r: usize)
        ensures
            r == self.width(),
    {
        match self {
            ReportLayout::Narrow => 2,
            ReportLayout::Wide => 4,
        }
    }
}

/// The report that carries `nits` in `layout`: the report ID, the brightness
/// little-endian, then zeros up to the report's length.
pub open spec fn report_bytes(layout: ReportLayout, nits: nat) -> Seq<u8> {
    seq![REPORT_ID] + le_bytes(nits, layout.width()) + Seq::new(
        (REPORT_LEN - 1 - layout.width()) as nat,
        |i: int| 0u8,
    )
}

/// The brightness that a report of `layout` carries.
pub open spec fn report_brightness(layout: ReportLayout, report: Seq<u8>) -> nat {
    le_value(report.subrange(BRIGHTNESS_OFFSET as int, BRIGHTNESS_OFFSET + layout.width()))
}

proof fn lemma_pow256_values()
    ensures
        pow256(0) == 1,
        pow256(1) == 256,
        pow256(2) == 65536,
        pow256(3) == 16777216,
        pow256(4) == 4294967296,
{
    reveal_with_fuel(pow256, 5);
}

proof fn lemma_le_bytes_unfold(n: nat, w: nat)
    requires
        w > 0,
    ensures
        le_bytes(n, w) == seq![(n % 256) as u8] + le_bytes(n / 256, (w - 1) as nat),
{
}

proof fn lemma_le_bytes_len(n: nat, w: nat)
    ensures
        le_bytes(n, w).len() == w,
    decreases w,
{
    if w > 0 {
        lemma_le_bytes_len(n / 256, (w - 1) as nat);
    }
}

proof fn lemma_le_round_trip(n: nat, w: nat)
    requires
        n < pow256(w),
    ensures
        le_value(le_bytes(n, w)) == n,
    decreases w,
{
    if w == 0 {
    } else {
        let p = pow256((w - 1) as nat);
        assert(n / 256 < p) by (nonlinear_arith)
            requires
                n < 256 * p,
        ;
        lemma_le_round_trip(n / 256, (w - 1) as nat);
        assert(le_bytes(n, w).drop_first() =~= le_bytes(n / 256, (w - 1) as nat));
        assert(n == n % 256 + 256 * (n / 256)) by (nonlinear_arith);
    }
}

proof fn lemma_le_value_bound(s: Seq<u8>)
    ensures
        le_value(s) < pow256(s.len()),
    decreases s.len(),
{
    if s.len() > 0 {
        lemma_le_value_bound(s.drop_first());
        let v = le_value(s.drop_first());
        let p = pow256(s.drop_first().len());
        assert(s[0] as nat + 256 * v < 256 * p) by (nonlinear_arith)
            requires
                v < p,
                s[0] < 256,
        ;
    }
}

/// Builds the report that carries `nits` in `layout`.
pub fn encode_report(layout: ReportLayout, nits: u32) -> (r: Vec<u8>)
    requires
        layout.fits(nits as int),
    ensures
        r@ == report_bytes(layout, nits as nat),
        r@.len() == REPORT_LEN,
{
    let width = layout.brightness_width();
    proof {
        lemma_pow256_values();
    }
    let mut report: Vec<u8> = Vec::with_capacity(REPORT_LEN);
    report.push(REPORT_ID);
    let mut rest: u32 = nits;
    let mut i: usize = 0;
    while i < width
        invariant
            width == layout.width(),
            i <= width,
            report@.len() == 1 + i,
            report@ + le_bytes(rest as nat, (width - i) as nat) == seq![REPORT_ID] + le_bytes(
                nits as nat,
                width as nat,
            ),
        decreases width - i,
    {
        proof {
            lemma_le_bytes_unfold(rest as nat, (width - i) as nat);
        }
        let ghost before = report@;
        report.push((rest % 256) as u8);
        assert(before + le_bytes(rest as nat, (width - i) as nat) =~= report@ + le_bytes(
            (rest / 256) as nat,
            (width - i - 1) as nat,
        ));
        rest = rest / 256;
        i = i + 1;
    }
    assert(report@ =~= seq![REPORT_ID] + le_bytes(nits as nat, width as nat));
    let ghost filled = report@;
    let mut j: usize = 1 + width;
    while j < REPORT_LEN
        invariant
            width == layout.width(),
            1 + width <= j <= REPORT_LEN,
            report@.len() == j,
            report@ =~= filled + Seq::new((j - 1 - width) as nat, |k: int| 0u8),
        decreases REPORT_LEN - j,
    {
        report.push(0);
        j = j + 1;
    }
    report
}

/// Reads the brightness out of a report of `layout`.
pub fn decode_report(layout: ReportLayout, report: &Vec<u8>) -> (r: u32)
    requires
        report@.len() == REPORT_LEN,
    ensures
        r == report_brightness(layout, report@),
{
    let width = layout.brightness_width();
    let ghost field = report@.subrange(BRIGHTNESS_OFFSET as int, BRIGHTNESS_OFFSET + width);
    let mut value: u64 = 0;
    let mut i: usize = width;
    while i > 0
        invariant
            width == layout.width(),
            width <= 4,
            i <= width,
            report@.len() == REPORT_LEN,
            field.len() == width,
            field == report@.subrange(BRIGHTNESS_OFFSET as int, BRIGHTNESS_OFFSET + width),
            value == le_value(field.subrange(i as int, width as int)),
            value < pow256((width - i) as nat),
        decreases i,
    {
        let ghost tail = field.subrange(i as int, width as int);
        let ghost longer = field.subrange(i - 1, width as int);
        proof {
            assert(longer.drop_first() =~= tail);
            assert(pow256((width - i + 1) as nat) == 256 * pow256((width - i) as nat));
            lemma_pow256_values();
        }
        assert(value * 256 + 255 < 4294967296 * 256) by (nonlinear_arith)
            requires
                value < pow256((width - i) as nat),
                pow256((width - i) as nat) <= 4294967296,
        ;
        value = report[BRIGHTNESS_OFFSET + i - 1] as u64 + 256 * value;
        i = i - 1;
    }
    proof {
        assert(field.subrange(0, width as int) =~= field);
        lemma_pow256_values();
    }
    value as u32
}

/// Decoding the report built for a value gives that value back, in either
/// layout, and the report always has the length the device expects.
pub proof fn lemma_report_round_trip(layout: ReportLayout, nits: nat)
    requires
        layout.fits(nits as int),
    ensures
        report_bytes(layout, nits).len() == REPORT_LEN,
        report_brightness(layout, report_bytes(layout, nits)) == nits,
{
    let w = layout.width();
    lemma_pow256_values();
    lemma_le_bytes_len(nits, w);
    assert(report_bytes(layout, nits).subrange(1, 1 + w as int) =~= le_bytes(nits, w));
    lemma_le_round_trip(nits, w);
}

} // verus!
