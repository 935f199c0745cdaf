//! The two URL shapes of the remote search API.

use vstd::prelude::*;
use vstd::string::StringExecFns;

verus! {

/// The character of a decimal digit `d < 10`.
pub open spec fn digit_char(d: nat) -> char {
    if d == 0 { '0' }
    else if d == 1 { '1' }
    else if d == 2 { '2' }
    else if d == 3 { '3' }
    else if d == 4 { '4' }
    else if d == 5 { '5' }
    else if d == 6 { '6' }
    else if d == 7 { '7' }
    else if d == 8 { '8' }
    else { '9' }
}

/// The decimal rendering of `n`, without leading zeros (`0` renders as `"0"`).
pub open spec fn decimal(n: nat) -> Seq<char>
    decreases n,
{
    if n < 10 {
        seq![digit_char(n)]
    } else {
        decimal(n / 10).push(digit_char(n % 10))
    }
}

/// `n` in decimal, left-padded with `'0'` to a width of at least four.
pub open spec fn padded_year(n: nat) -> Seq<char> {
    let d = decimal(n);
    if d.len() < 4 {
        Seq::new((4 - d.len()) as nat, |i: int| '0') + d
    } else {
        d
    }
}

/// How one end of the announcement-date range is written into the query:
/// a zero-padded year, or `*` when that end is open.
pub open spec fn range_bound(b: Option<usize>) -> Seq<char> {
    match b {
        Some(y) => padded_year(y as nat),
        None => seq!['*'],
    }
}

/// The list query for page `page` of `rows` records, restricted to the latest
/// collection and to announcement dates between the two bounds.
pub open spec fn list_url(start: Option<usize>, end: Option<usize>, page: nat, rows: nat) -> Seq<char> {
    "https://jorei.slis.doshisha.ac.jp/api/reiki/select?f.municipality_id.facet.limit=1788&facet.mincount=1&facet.range=announcement_date&facet.range.gap=%2B1YEAR&facet.range.start=1883-01-01T00%3A00%3A00Z&facet.range.end=NOW&q=collection%3Alatest%20AND%20announcement_date%3A%5B"@
        + range_bound(start)
        + "%20TO%20"@
        + range_bound(end)
        + "%5D&start="@
        + decimal(page * rows)
        + "&rows="@
        + decimal(rows)
        + "&fq=&facet=true&facet.field=municipality_type&facet.field=city&facet.field=type&facet.field=h_type&facet.field=municipality_id"@
}

/// The detail query selecting the one record whose identifier is `id`, with
/// all of its fields.
pub open spec fn detail_url(id: Seq<char>) -> Seq<char> {
    "https://jorei.slis.doshisha.ac.jp/api/reiki/select?q=ids%3A"@ + id + "&all=true"@
}

fn digit_str(d: usize) -> (r: &'static str)
    requires
        d < 10,
    ensures
        r@ == seq![digit_char(d as nat)],
{
    if d == 0 {
        proof { reveal_strlit("0"); }
        "0"
    } else if d == 1 {
        proof { reveal_strlit("1"); }
        "1"
    } else if d == 2 {
        proof { reveal_strlit("2"); }
        "2"
    } else if d == 3 {
        proof { reveal_strlit("3"); }
        "3"
    } else if d == 4 {
        proof { reveal_strlit("4"); }
        "4"
    } else if d == 5 {
        proof { reveal_strlit("5"); }
        "5"
    } else if d == 6 {
        proof { reveal_strlit("6"); }
        "6"
    } else if d == 7 {
        proof { reveal_strlit("7"); }
        "7"
    } else if d == 8 {
        proof { reveal_strlit("8"); }
        "8"
    } else {
        proof { reveal_strlit("9"); }
        "9"
    }
}

/// Appends the decimal rendering of `n` to `out`.
pub fn push_decimal(out: &mut String, n: usize)
    ensures
        final(out)@ == old(out)@ + decimal(n as nat),
    decreases n,
{
    if n >= 10 {
        push_decimal(out, n / 10);
    }
    out.append(digit_str(n % 10));
    proof {
        if n >= 10 {
            assert(old(out)@ + decimal(n as nat) =~= old(out)@ + decimal((n / 10) as nat) + seq![digit_char((n % 10) as nat)]);
        }
    }
}

proof fn lemma_decimal_len(n: nat)
    ensures
        decimal(n).len() >= 1,
        n < 10 <==> decimal(n).len() == 1,
        n < 100 <==> decimal(n).len() <= 2,
        n < 1000 <==> decimal(n).len() <= 3,
        n < 10000 <==> decimal(n).len() <= 4,
    decreases n,
{
    if n >= 10 {
        lemma_decimal_len(n / 10);
    }
}

/// Appends `y` zero-padded to four digits to `out`.
fn push_padded_year(out: &mut String, y: usize)
    ensures
        final(out)@ == old(out)@ + padded_year(y as nat),
{
    proof {
        lemma_decimal_len(y as nat);
        reveal_strlit("0");
    }
    let ghost d = decimal(y as nat);
    if y < 10 {
        out.append("000");
        proof { reveal_strlit("000"); }
    } else if y < 100 {
        out.append("00");
        proof { reveal_strlit("00"); }
    } else if y < 1000 {
        out.append("0");
    }
    let ghost mid = out@;
    push_decimal(out, y);
    proof {
        assert(mid =~= old(out)@ + Seq::new((if d.len() < 4 { 4 - d.len() } else { 0 }) as nat, |i: int| '0'));
        assert(out@ =~= old(out)@ + padded_year(y as nat));
    }
}

fn push_range_bound(out: &mut String, b: Option<usize>)
    ensures
        final(out)@ == old(out)@ + range_bound(b),
{
    match b {
        Some(y) => push_padded_year(out, y),
        None => {
            proof { reveal_strlit("*"); }
            out.append("*");
        },
    }
}

/// Builds the list query for page `n` of `rows` records, announced between
/// the years `start` and `end` (either end open when `None`).
pub fn gen_list_url(start: Option<usize>, end: Option<usize>, n: usize, rows: usize) -> (r: String)
    requires
        n * rows <= usize::MAX,
    ensures
        r@ == list_url(start, end, n as nat, rows as nat),
{
    let mut s = String::from_str(
        "https://jorei.slis.doshisha.ac.jp/api/reiki/select?f.municipality_id.facet.limit=1788&facet.mincount=1&facet.range=announcement_date&facet.range.gap=%2B1YEAR&facet.range.start=1883-01-01T00%3A00%3A00Z&facet.range.end=NOW&q=collection%3Alatest%20AND%20announcement_date%3A%5B",
    );
    push_range_bound(&mut s, start);
    s.append("%20TO%20");
    push_range_bound(&mut s, end);
    s.append("%5D&start=");
    push_decimal(&mut s, rows * n);
    s.append("&rows=");
    push_decimal(&mut s, rows);
    s.append(
        "&fq=&facet=true&facet.field=municipality_type&facet.field=city&facet.field=type&facet.field=h_type&facet.field=municipality_id",
    );
    proof {
        assert(rows * n == n * rows) by (nonlinear_arith);
    }
    s
}

/// Builds the detail query for the record identified by `id`.
pub fn gen_jorei_url(id: &str) -> (r: String)
    ensures
        r@ == detail_url(id@),
{
    let mut s = String::from_str("https://jorei.slis.doshisha.ac.jp/api/reiki/select?q=ids%3A");
    s.append(id);
    s.append("&all=true");
    s
}

/// A year bound below ten thousand is written as exactly four decimal digits;
/// an open bound is written as the wildcard `*`.
pub proof fn lemma_range_bound_shape(b: Option<usize>)
    requires
        b is Some ==> b->0 < 10000,
    ensures
        b is Some ==> range_bound(b).len() == 4 && forall|i: int|
            0 <= i < 4 ==> '0' <= #[trigger] range_bound(b)[i] <= '9',
        b is None ==> range_bound(b) == seq!['*'],
{
    if let Some(y) = b {
        lemma_decimal_len(y as nat);
        lemma_decimal_digits(y as nat);
        let d = decimal(y as nat);
        let p = range_bound(b);
        assert forall|i: int| 0 <= i < 4 implies '0' <= #[trigger] p[i] <= '9' by {
            if d.len() < 4 && i < 4 - d.len() {
            } else {
                let k = if d.len() < 4 { i - (4 - d.len()) } else { i };
                assert(p[i] == d[k]);
            }
        }
    }
}

proof fn lemma_decimal_digits(n: nat)
    ensures
        forall|i: int| 0 <= i < decimal(n).len() ==> '0' <= #[trigger] decimal(n)[i] <= '9',
    decreases n,
{
    if n >= 10 {
        lemma_decimal_digits(n / 10);
        assert forall|i: int| 0 <= i < decimal(n).len() implies '0' <= #[trigger] decimal(n)[i] <= '9' by {
            if i < decimal(n / 10).len() {
                assert(decimal(n)[i] == decimal(n / 10)[i]);
            }
        }
    }
}

} // verus!
