use num_format::{Locale, ToFormattedString};
use vstd::prelude::*;
use crate::tally::{bucket_key, Aggregate};
use crate::tier::{Rarity, Wear};

verus! {

pub open spec fn digit_char(d: nat) -> char {
    seq!['0', '1', '2', '3', '4', '5', '6', '7', '8', '9'][d as int]
}

/// Decimal digits of `n`, without leading zeros.
pub open spec fn decimal_text(n: nat) -> Seq<char>
    decreases n,
{
    if n < 10 {
        seq![digit_char(n)]
    } else {
        decimal_text(n / 10).push(digit_char(n % 10))
    }
}

/// The three digits of `n < 1000`, zero-padded.
pub open spec fn three_digits(n: nat) -> Seq<char> {
    seq![digit_char(n / 100), digit_char(n / 10 % 10), digit_char(n % 10)]
}

/// Decimal digits of `n` with a comma between groups of three, counted from
/// the right (`1,234,567`).
pub open spec fn grouped_decimal(n: nat) -> Seq<char>
    decreases n,
{
    if n < 1000 {
        decimal_text(n)
    } else {
        grouped_decimal(n / 1000) + seq![','] + three_digits(n % 1000)
    }
}

/// Relies on num_format's `ToFormattedString::to_formatted_string` with
/// `Locale::en`, whose separator is "," with groups of three: the decimal
/// digits of `n`, grouped by commas.
#[verifier::external_body]
fn grouped(n: u64) -> (r: String)
    ensures
        r@ == grouped_decimal(n as nat),
{
    n.to_formatted_string(&Locale::en)
}

/// One report line: the wear label, its total and its bonus count.
pub open spec fn wear_line_text(w: Wear, total: u64, bonus: u64) -> Seq<char> {
    w.spec_label() + ": "@ + grouped_decimal(total as nat) + " (of which StatTrak: "@
        + grouped_decimal(bonus as nat) + ")\n"@
}

/// Lines of the buckets of `r` present in `m`, for the first `n` wears in order.
pub open spec fn wear_lines_text(m: Map<u64, (u64, u64)>, r: Rarity, n: nat) -> Seq<char>
    decreases n,
{
    if n == 0 {
        Seq::empty()
    } else {
        let w = Wear::at(n - 1);
        let k = bucket_key(r, w);
        wear_lines_text(m, r, (n - 1) as nat) + if m.contains_key(k) {
            wear_line_text(w, m[k].0, m[k].1)
        } else {
            Seq::empty()
        }
    }
}

/// Whether some bucket of rarity `r` is present.
pub open spec fn has_rarity(m: Map<u64, (u64, u64)>, r: Rarity) -> bool {
    exists|w: Wear| #[trigger] m.contains_key(bucket_key(r, w))
}

/// The block of rarity `r`: its label, its wear lines, a blank line; nothing
/// when no item of that rarity was recorded.
pub open spec fn rarity_block_text(m: Map<u64, (u64, u64)>, r: Rarity) -> Seq<char> {
    if has_rarity(m, r) {
        r.spec_label() + "\n"@ + wear_lines_text(m, r, 5) + "\n"@
    } else {
        Seq::empty()
    }
}

/// Blocks of the first `n` rarities in order.
pub open spec fn report_text_below(m: Map<u64, (u64, u64)>, n: nat) -> Seq<char>
    decreases n,
{
    if n == 0 {
        Seq::empty()
    } else {
        report_text_below(m, (n - 1) as nat) + rarity_block_text(m, Rarity::at(n - 1))
    }
}

/// The whole report: the blocks of all rarities, in ascending order.
pub open spec fn report_text(m: Map<u64, (u64, u64)>) -> Seq<char> {
    report_text_below(m, 5)
}

/// Renders one wear line of the report, counts grouped by thousands.
pub fn format_wear_line(wear: Wear, total: u64, bonus: u64) -> (r: String)
    ensures
        r@ == wear_line_text(wear, total, bonus),
{
    let mut s = String::from_str(wear.label());
    s.append(": ");
    let t = grouped(total);
    s.append(t.as_str());
    s.append(" (of which StatTrak: ");
    let b = grouped(bonus);
    s.append(b.as_str());
    s.append(")\n");
    s
}

impl Aggregate {
    /// The report: for each rarity with recorded items, in ascending order,
    /// its label, then one line per recorded wear in ascending order, then a
    /// blank line. Reading leaves the aggregate as it is and the text is a
    /// function of its counts alone, so rendering twice gives the same text.
    pub fn render(&self) -> (r: String)
        ensures
            r@ == report_text(self@),
    {
        let mut out = String::new();
        let mut i: u64 = 0;
        while i < 5
            invariant
                i <= 5,
                out@ == report_text_below(self@, i as nat),
            decreases 5 - i,
        {
            let rarity = Rarity::from_rank(i);
            let mut lines = String::new();
            let mut found = false;
            let mut j: u64 = 0;
            while j < 5
                invariant
                    j <= 5,
                    i < 5,
                    rarity == Rarity::at(i as int),
                    lines@ == wear_lines_text(self@, rarity, j as nat),
                    found == exists|x: int|
                        0 <= x < j && #[trigger] self@.contains_key(bucket_key(rarity, Wear::at(x))),
                decreases 5 - j,
            {
                let wear = Wear::from_rank(j);
                match self.get(rarity, wear) {
                    Some(c) => {
                        let line = format_wear_line(wear, c.0, c.1);
                        lines.append(line.as_str());
                        found = true;
                    },
                    None => {},
                }
                j = j + 1;
            }
            proof {
                if found {
                    let x = choose|x: int|
                        0 <= x < 5 && #[trigger] self@.contains_key(bucket_key(rarity, Wear::at(x)));
                    assert(self@.contains_key(bucket_key(rarity, Wear::at(x))));
                } else {
                    assert forall|w: Wear| !#[trigger] self@.contains_key(bucket_key(rarity, w)) by {
                        assert(w == Wear::at(w.rank() as int));
                    }
                }
            }
            let ghost before = out@;
            if found {
                out.append(rarity.label());
                out.append("\n");
                out.append(lines.as_str());
                out.append("\n");
            }
            assert(out@ =~= before + rarity_block_text(self@, rarity));
            i = i + 1;
        }
        out
    }
}

} // verus!
